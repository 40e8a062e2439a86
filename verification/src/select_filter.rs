//! Select-option filters: membership of the filter's chosen option ids in a
//! select cell's decoded selection.

use vstd::prelude::*;

verus! {

/// The closed set of membership conditions a select filter can ask for, in
/// append-only order.
#[derive(Clone, Copy, Debug, PartialEq, Eq, Structural, Hash)]
pub enum SelectOptionCondition {
    OptionAnyOf,
    OptionAllOf,
    OptionIsEmpty,
}

/// A filter on a single- or multi-select column. `option_ids` are the option
/// ids the membership conditions test against; `OptionIsEmpty` needs none.
#[derive(Clone, Debug)]
pub struct GridSelectOptionFilter {
    pub condition: SelectOptionCondition,
    pub option_ids: Vec<String>,
}

/// Whether a select cell's decoded selection is visible under a select
/// filter. `OptionIsEmpty` holds exactly of cells with nothing selected.
/// `OptionAnyOf` asks for at least one of the filter's ids to be selected,
/// `OptionAllOf` for all of them; both need at least one id and fail closed
/// (not visible) when the filter carries none, as an unconfigured filter.
pub open spec fn select_filter_visible(f: GridSelectOptionFilter, selected: Seq<Seq<char>>) -> bool {
    match f.condition {
        SelectOptionCondition::OptionIsEmpty => selected.len() == 0,
        SelectOptionCondition::OptionAnyOf => f.option_ids.deep_view().len() > 0 && exists|i: int|
            0 <= i < f.option_ids.deep_view().len() && selected.contains(
                #[trigger] f.option_ids.deep_view()[i],
            ),
        SelectOptionCondition::OptionAllOf => f.option_ids.deep_view().len() > 0 && forall|i: int|
            0 <= i < f.option_ids.deep_view().len() ==> selected.contains(
                #[trigger] f.option_ids.deep_view()[i],
            ),
    }
}

/// Whether one option id occurs among a cell's selected ids.
#[verifier::loop_isolation(false)]
fn selection_contains(selected: &Vec<String>, id: &String) -> (r: bool)
    ensures
        r == selected.deep_view().contains(id@),
{
    let mut i: usize = 0;
    while i < selected.len()
        invariant
            0 <= i <= selected.len(),
            forall|j: int| 0 <= j < i ==> selected.deep_view()[j] != id@,
        decreases selected.len() - i,
    {
        if selected[i].eq(id) {
            proof {
                assert(selected.deep_view()[i as int] == id@);
            }
            return true;
        }
        i += 1;
    }
    false
}

impl GridSelectOptionFilter {
    /// Decide whether a select cell's decoded selection stays visible under
    /// this filter.
    #[verifier::loop_isolation(false)]
    pub fn is_visible(&self, selected: &Vec<String>) -> (visible: bool)
        ensures
            visible == select_filter_visible(*self, selected.deep_view()),
    {
        match self.condition {
            SelectOptionCondition::OptionIsEmpty => selected.len() == 0,
            SelectOptionCondition::OptionAnyOf => {
                proof {
                    assert(self.option_ids.deep_view().len() == self.option_ids@.len());
                }
                let mut i: usize = 0;
                while i < self.option_ids.len()
                    invariant
                        0 <= i <= self.option_ids.len(),
                        forall|j: int|
                            0 <= j < i ==> !selected.deep_view().contains(
                                #[trigger] self.option_ids.deep_view()[j],
                            ),
                    decreases self.option_ids.len() - i,
                {
                    proof {
                        assert(self.option_ids.deep_view()[i as int] == self.option_ids@[
                            i as int
                        ]@);
                    }
                    if selection_contains(selected, &self.option_ids[i]) {
                        proof {
                            assert(selected.deep_view().contains(
                                self.option_ids.deep_view()[i as int],
                            ));
                        }
                        return true;
                    }
                    i += 1;
                }
                false
            },
            SelectOptionCondition::OptionAllOf => {
                proof {
                    assert(self.option_ids.deep_view().len() == self.option_ids@.len());
                }
                if self.option_ids.len() == 0 {
                    return false;
                }
                let mut i: usize = 0;
                while i < self.option_ids.len()
                    invariant
                        0 <= i <= self.option_ids.len(),
                        forall|j: int|
                            0 <= j < i ==> selected.deep_view().contains(
                                #[trigger] self.option_ids.deep_view()[j],
                            ),
                    decreases self.option_ids.len() - i,
                {
                    proof {
                        assert(self.option_ids.deep_view()[i as int] == self.option_ids@[
                            i as int
                        ]@);
                    }
                    if !selection_contains(selected, &self.option_ids[i]) {
                        return false;
                    }
                    i += 1;
                }
                true
            },
        }
    }
}

/// A select filter that names no option ids fails closed: both membership
/// conditions hide every cell.
pub proof fn lemma_select_no_ids_fails_closed(f: GridSelectOptionFilter, selected: Seq<Seq<char>>)
    requires
        f.condition != SelectOptionCondition::OptionIsEmpty,
        f.option_ids.deep_view().len() == 0,
    ensures
        !select_filter_visible(f, selected),
{
}

} // verus!
