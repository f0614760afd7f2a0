use vstd::prelude::*;

pub mod handlers;
pub mod ids;
pub mod models;
pub mod queue;
pub mod repository;
pub mod text;
pub mod timestamp;
pub mod worker;

verus! {

/// Integer division that rounds toward zero, as Rust's `/` does on signed integers.
pub open spec fn div_toward_zero(x: int, d: int) -> int {
    if x >= 0 {
        x / d
    } else {
        -((-x) / d)
    }
}

} // verus!
