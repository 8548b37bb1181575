//! The catalogue of train models that a Player Company can buy.

use vstd::prelude::*;

use super::identity::TrainModelId;
use super::units::{Money, MoneyPerKilometre};
use crate::text::same_text;

verus! {

#[derive(Clone, Debug, PartialEq, Eq)]
pub struct TrainModel {
    pub id: TrainModelId,
    pub name: String,
    pub purchase_price: Money,
    pub passenger_capacity: u32,
    pub speed_metres_per_second: u64,
    pub fuel_cost_per_kilometre: MoneyPerKilometre,
    pub evn_type_code: u8,
    pub evn_series_code: u16,
}

/// The models on offer, in catalogue order.
#[derive(Clone, Debug, PartialEq, Eq)]
pub struct TrainCatalogue {
    pub models: Vec<TrainModel>,
}

impl TrainCatalogue {
    pub open spec fn lists(self, name: Seq<char>) -> bool {
        exists|i: int| 0 <= i < self.models@.len() && (#[trigger] self.models@[i]).id.name@ == name
    }

    /// Whether `i` is the first model with an identity.
    pub open spec fn is_first(self, i: int, name: Seq<char>) -> bool {
        &&& 0 <= i < self.models@.len()
        &&& self.models@[i].id.name@ == name
        &&& forall|j: int| 0 <= j < i ==> (#[trigger] self.models@[j]).id.name@ != name
    }

    /// The model with an identity, for an identity that the catalogue lists.
    pub open spec fn model(self, name: Seq<char>) -> TrainModel {
        self.models@[choose|i: int| self.is_first(i, name)]
    }

    /// The first model with an identity.
    pub fn by_id(&self, id: &TrainModelId) -> (result: Option<&TrainModel>)
        ensures
            match result {
                Some(model) => self.lists(id.name@) && *model == self.model(id.name@),
                None => !self.lists(id.name@),
            },
    {
        let mut i: usize = 0;
        while i < self.models.len()
            invariant
                i <= self.models.len(),
                forall|j: int| 0 <= j < i ==> (#[trigger] self.models@[j]).id.name@ != id.name@,
            decreases self.models.len() - i,
        {
            if same_text(self.models[i].id.as_str(), id.as_str()) {
                proof {
                    assert(self.is_first(i as int, id.name@));
                    let c = choose|c: int| self.is_first(c, id.name@);
                    if c < i {
                        assert(self.models@[c].id.name@ != id.name@);
                    }
                    if i < c {
                        assert(self.models@[i as int].id.name@ != id.name@);
                    }
                }
                return Some(&self.models[i]);
            }
            i += 1;
        }
        None
    }
}

} // verus!
