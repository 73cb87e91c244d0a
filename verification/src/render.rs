//! The rendering rule the output relay applies to each byte read from
//! the child's output stream before writing it to the terminal.

use vstd::prelude::*;

verus! {

/// What one child-output byte looks like on the terminal: the delete
/// code is re-rendered as the three-byte erase sequence (move back,
/// overwrite with a space, move back again); every other byte is
/// written through unchanged.
pub open spec fn spec_render(b: u8) -> Seq<u8> {
    if b == 0x7f {
        seq![0x08u8, 0x20u8, 0x08u8]
    } else {
        seq![b]
    }
}

/// Render one byte of child output into the bytes to write to the
/// terminal.
pub fn render_byte(b: u8) -> (r: Vec<u8>)
    ensures
        r@ == spec_render(b),
{
    let mut out: Vec<u8> = Vec::new();
    if b == 0x7f {
        out.push(0x08);
        out.push(0x20);
        out.push(0x08);
        proof {
            assert(out@ =~= spec_render(b));
        }
    } else {
        out.push(b);
        proof {
            assert(out@ =~= spec_render(b));
        }
    }
    out
}

/// One observation the output relay makes on the child's output
/// stream: either a byte arrived, or the stream ended because the
/// child closed it (typically at exit).
pub enum OutputEvent {
    Byte(u8),
    Closed,
}

/// What the output relay does in response to one observation: write
/// the given bytes to the terminal and flush, or stop quietly.
pub enum OutputAction {
    Emit(Vec<u8>),
    Stop,
}

/// Decide the output relay's response to one observation. End of
/// stream stops the relay without error; a byte is rendered and
/// emitted.
pub fn output_step(ev: OutputEvent) -> (r: OutputAction)
    ensures
        ev is Closed ==> r is Stop,
        ev matches OutputEvent::Byte(b) ==> r matches OutputAction::Emit(v)
            && v@ == spec_render(b),
{
    match ev {
        OutputEvent::Byte(b) => OutputAction::Emit(render_byte(b)),
        OutputEvent::Closed => OutputAction::Stop,
    }
}

} // verus!
