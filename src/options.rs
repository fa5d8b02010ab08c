use vstd::prelude::*;

verus! {

/// Switches that the host sets on the machine.
#[derive(Clone, Copy, PartialEq, Eq, Structural, Debug)]
pub struct Options {
    /// Hand each instruction's trace to the host.
    pub dump_ops: bool,
    /// How many instruction traces the history ring keeps; 0 keeps none.
    pub history_len: usize,
    pub sprite_order_overlay: bool,
}

impl Default for Options {
    fn default() -> (r: Self)
        ensures
            !r.dump_ops && r.history_len == 0 && !r.sprite_order_overlay,
    {
        Self { dump_ops: false, history_len: 0, sprite_order_overlay: false }
    }
}

} // verus!
