//! The mouse input that the clicker sends.

use vstd::prelude::*;

verus! {

/// One mouse button event of a click.
#[derive(Clone, Copy, Debug, PartialEq, Eq, Structural)]
pub enum MouseEvent {
    LeftDown,
    LeftUp,
}

/// The clicks in a burst: at least one.
pub open spec fn burst_size(clicks: u8) -> nat {
    if clicks == 0 {
        1
    } else {
        clicks as nat
    }
}

/// The input events of a burst of left clicks: a press and a release for
/// each click, at least one click.
pub fn burst_inputs(clicks: u8) -> (r: Vec<MouseEvent>)
    ensures
        r@.len() == 2 * burst_size(clicks),
        forall|i: int|
            0 <= i < r@.len() ==> #[trigger] r@[i] == if i % 2 == 0 {
                MouseEvent::LeftDown
            } else {
                MouseEvent::LeftUp
            },
{
    let count: u8 = if clicks == 0 {
        1
    } else {
        clicks
    };
    let mut inputs: Vec<MouseEvent> = Vec::new();
    let mut k: u8 = 0;
    while k < count
        invariant
            count == burst_size(clicks),
            k <= count,
            inputs@.len() == 2 * k,
            forall|i: int|
                0 <= i < inputs@.len() ==> #[trigger] inputs@[i] == if i % 2 == 0 {
                    MouseEvent::LeftDown
                } else {
                    MouseEvent::LeftUp
                },
        decreases count - k,
    {
        inputs.push(MouseEvent::LeftDown);
        inputs.push(MouseEvent::LeftUp);
        k = k + 1;
    }
    inputs
}

/// The clicks completed when `sent_inputs` of a burst's events went out.
pub fn clicks_sent(sent_inputs: u32) -> (r: u32)
    ensures
        r == sent_inputs / 2,
{
    sent_inputs / 2
}

} // verus!
