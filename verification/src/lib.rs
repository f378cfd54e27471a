use vstd::prelude::*;

pub mod fields;
pub mod heatmap;
pub mod numeric;
pub mod state;
pub mod text;

verus! {
}
