//! Styled text: spans of one style, lines of spans, and pages of lines.

use vstd::prelude::*;

verus! {

/// The role that a piece of text plays.
#[derive(Clone, Copy, Debug, PartialEq, Eq, Structural)]
pub enum Tone {
    Plain,
    Secondary,
    PrimaryValue,
    FocusedTitle,
    Title,
    TableHeader,
    Success,
    Warning,
    Error,
    Hint,
    ShortcutKey,
    ShortcutAction,
    ShortcutDisabled,
    ShellBrand,
    ShellIdentity,
    ShellMetricLabel,
    ShellMetricValue,
    EmptyStateMotif,
    EmptyStateTitle,
    EmptyStateDescription,
    EmptyStateHint,
}

/// How a piece of text looks.
#[derive(Clone, Copy, Debug, PartialEq, Eq, Structural)]
pub struct Style {
    pub tone: Tone,
    pub bold: bool,
}

/// The plain look of a role.
pub open spec fn plain(tone: Tone) -> Style {
    Style { tone, bold: false }
}

/// The bold look of a role.
pub open spec fn strong(tone: Tone) -> Style {
    Style { tone, bold: true }
}

impl Style {
    pub fn plain(tone: Tone) -> (result: Self)
        ensures
            result == plain(tone),
    {
        Style { tone, bold: false }
    }

    pub fn strong(tone: Tone) -> (result: Self)
        ensures
            result == strong(tone),
    {
        Style { tone, bold: true }
    }

    pub open spec fn emboldened(self) -> Style {
        Style { tone: self.tone, bold: true }
    }

    pub fn bold(self) -> (result: Self)
        ensures
            result == self.emboldened(),
    {
        Style { tone: self.tone, bold: true }
    }
}

/// A piece of text in one style.
#[derive(Clone, Debug, PartialEq, Eq)]
pub struct Span {
    pub text: String,
    pub style: Style,
}

impl View for Span {
    type V = (Seq<char>, Style);

    open spec fn view(&self) -> (Seq<char>, Style) {
        (self.text@, self.style)
    }
}

/// A line of styled pieces.
#[derive(Clone, Debug, PartialEq, Eq)]
pub struct StyledLine {
    pub spans: Vec<Span>,
}

impl View for StyledLine {
    type V = Seq<(Seq<char>, Style)>;

    open spec fn view(&self) -> Seq<(Seq<char>, Style)> {
        Seq::new(self.spans@.len(), |i: int| self.spans@[i]@)
    }
}

/// A line that is one piece in one style.
pub open spec fn line_of(text: Seq<char>, style: Style) -> Seq<(Seq<char>, Style)> {
    seq![(text, style)]
}

/// The empty line between paragraphs.
pub open spec fn blank_line() -> Seq<(Seq<char>, Style)> {
    seq![(""@, plain(Tone::Plain))]
}

impl StyledLine {
    pub fn new() -> (result: Self)
        ensures
            result@ == Seq::<(Seq<char>, Style)>::empty(),
    {
        let line = StyledLine { spans: Vec::new() };
        assert(line@ =~= Seq::<(Seq<char>, Style)>::empty());
        line
    }

    /// Adds a piece at the end.
    pub fn push(&mut self, text: &str, style: Style)
        ensures
            final(self)@ == old(self)@.push((text@, style)),
    {
        let span = Span { text: text.to_owned(), style };
        self.spans.push(span);
        assert(self@ =~= old(self)@.push((text@, style)));
    }

    /// Adds the pieces of another line at the end.
    pub fn extend(&mut self, other: &StyledLine)
        ensures
            final(self)@ == old(self)@ + other@,
    {
        let mut i: usize = 0;
        while i < other.spans.len()
            invariant
                i <= other.spans@.len(),
                self@ == old(self)@ + other@.take(i as int),
            decreases other.spans.len() - i,
        {
            self.push(other.spans[i].text.as_str(), other.spans[i].style);
            i += 1;
            assert(self@ =~= old(self)@ + other@.take(i as int));
        }
        assert(other@.take(i as int) =~= other@);
    }

    /// A line that is one piece.
    pub fn styled(text: &str, style: Style) -> (result: Self)
        ensures
            result@ == line_of(text@, style),
    {
        let mut line = StyledLine::new();
        line.push(text, style);
        line
    }

    /// A line of two pieces.
    pub fn pair(text: &str, style: Style, next: &str, next_style: Style) -> (result: Self)
        ensures
            result@ == seq![(text@, style), (next@, next_style)],
    {
        let mut line = StyledLine::new();
        line.push(text, style);
        line.push(next, next_style);
        line
    }

    /// A line of three pieces.
    pub fn triple(
        text: &str,
        style: Style,
        next: &str,
        next_style: Style,
        last: &str,
        last_style: Style,
    ) -> (result: Self)
        ensures
            result@ == seq![(text@, style), (next@, next_style), (last@, last_style)],
    {
        let mut line = StyledLine::pair(text, style, next, next_style);
        line.push(last, last_style);
        line
    }

    /// The empty line between paragraphs.
    pub fn blank() -> (result: Self)
        ensures
            result@ == blank_line(),
    {
        StyledLine::styled("", Style::plain(Tone::Plain))
    }

    /// The characters of a line without its styles.
    pub fn text(&self) -> (result: String)
        ensures
            result@ == line_text(self@),
    {
        let mut text = String::new();
        let mut i: usize = 0;
        assert(self@.take(0) =~= Seq::<(Seq<char>, Style)>::empty());
        while i < self.spans.len()
            invariant
                i <= self.spans@.len(),
                text@ == line_text(self@.take(i as int)),
            decreases self.spans.len() - i,
        {
            let ghost next = self@.take(i + 1);
            assert(next.drop_last() =~= self@.take(i as int));
            text = vstd::string::StringExecFns::concat(text, self.spans[i].text.as_str());
            i += 1;
        }
        assert(self@.take(i as int) =~= self@);
        text
    }
}

/// The characters of a line without its styles.
pub open spec fn line_text(line: Seq<(Seq<char>, Style)>) -> Seq<char>
    decreases line.len(),
{
    if line.len() == 0 {
        Seq::empty()
    } else {
        line_text(line.drop_last()) + line.last().0
    }
}

/// Lines from top to bottom.
#[derive(Clone, Debug, PartialEq, Eq)]
pub struct Page {
    pub lines: Vec<StyledLine>,
}

impl View for Page {
    type V = Seq<Seq<(Seq<char>, Style)>>;

    open spec fn view(&self) -> Seq<Seq<(Seq<char>, Style)>> {
        Seq::new(self.lines@.len(), |i: int| self.lines@[i]@)
    }
}

impl Page {
    pub fn new() -> (result: Self)
        ensures
            result@ == Seq::<Seq<(Seq<char>, Style)>>::empty(),
    {
        let page = Page { lines: Vec::new() };
        assert(page@ =~= Seq::<Seq<(Seq<char>, Style)>>::empty());
        page
    }

    /// Adds a line at the bottom.
    pub fn push(&mut self, line: StyledLine)
        ensures
            final(self)@ == old(self)@.push(line@),
    {
        self.lines.push(line);
        assert(self@ =~= old(self)@.push(line@));
    }

    /// Adds a line that is one piece.
    pub fn push_styled(&mut self, text: &str, style: Style)
        ensures
            final(self)@ == old(self)@.push(line_of(text@, style)),
    {
        self.push(StyledLine::styled(text, style));
    }

    /// Adds the empty line between paragraphs.
    pub fn push_blank(&mut self)
        ensures
            final(self)@ == old(self)@.push(blank_line()),
    {
        self.push(StyledLine::blank());
    }

    /// Adds the lines of another page at the bottom.
    pub fn append(&mut self, other: &mut Page)
        ensures
            final(self)@ == old(self)@ + old(other)@,
    {
        self.lines.append(&mut other.lines);
        assert(self@ =~= old(self)@ + old(other)@);
    }

    pub fn len(&self) -> (result: usize)
        ensures
            result == self@.len(),
    {
        self.lines.len()
    }
}

/// A cell of a table.
#[derive(Clone, Debug, PartialEq, Eq)]
pub struct TableCell {
    pub text: String,
    pub style: Style,
    pub right_aligned: bool,
}

/// A cell as it reads: its text, its style, and whether it keeps to the right.
pub type CellView = (Seq<char>, Style, bool);

impl View for TableCell {
    type V = CellView;

    open spec fn view(&self) -> CellView {
        (self.text@, self.style, self.right_aligned)
    }
}

/// A row of a table, with an empty row below it where the table is parted there.
#[derive(Clone, Debug, PartialEq, Eq)]
pub struct TableRow {
    pub cells: Vec<TableCell>,
    pub parted_below: bool,
}

/// A row as it reads.
pub type RowView = (Seq<CellView>, bool);

impl View for TableRow {
    type V = RowView;

    open spec fn view(&self) -> RowView {
        (Seq::new(self.cells@.len(), |i: int| self.cells@[i]@), self.parted_below)
    }
}

impl TableRow {
    pub fn new() -> (result: Self)
        ensures
            result@ == (Seq::<CellView>::empty(), false),
    {
        let row = TableRow { cells: Vec::new(), parted_below: false };
        assert(row@.0 =~= Seq::<CellView>::empty());
        row
    }

    /// Adds a cell.
    pub fn push(&mut self, text: &str, style: Style)
        ensures
            final(self)@ == (old(self)@.0.push((text@, style, false)), old(self)@.1),
    {
        self.cells.push(TableCell { text: text.to_owned(), style, right_aligned: false });
        assert(self@.0 =~= old(self)@.0.push((text@, style, false)));
    }

    /// Adds a cell that keeps to the right.
    pub fn push_right(&mut self, text: &str, style: Style)
        ensures
            final(self)@ == (old(self)@.0.push((text@, style, true)), old(self)@.1),
    {
        self.cells.push(TableCell { text: text.to_owned(), style, right_aligned: true });
        assert(self@.0 =~= old(self)@.0.push((text@, style, true)));
    }

    /// Parts the table below this row, or does not.
    pub fn part_below(&mut self, parted: bool)
        ensures
            final(self)@ == (old(self)@.0, parted),
    {
        self.parted_below = parted;
        assert(self@.0 =~= old(self)@.0);
    }
}

/// Rows as they read.
pub open spec fn row_views(rows: Seq<TableRow>) -> Seq<RowView> {
    Seq::new(rows.len(), |i: int| rows[i]@)
}

} // verus!
