//! Editable fields: how one parameter of a distribution is offered for
//! editing, and what it holds after an entry.

use vstd::prelude::*;
use crate::double::Double;

verus! {

/// One parameter as an editable numeric field: the text shown before the
/// number, the number itself, and the range of the total order to which
/// every entry is clamped.
#[derive(Clone, Copy, Debug, PartialEq, Eq)]
pub struct Field {
    pub prefix: &'static str,
    pub value: Double,
    pub min: Double,
    pub max: Double,
}

} // verus!
