//! The one-shot commands of the command line.
use vstd::prelude::*;

use crate::codec::{
    clamp_pattern, color_frame, encode_color, encode_mic, encode_pattern, encode_power, mic_frame,
    pattern_frame, power_frame, Frame,
};
use crate::controller::Color;
use crate::dispatch::{deliver_all, failed_writes, DeliveryReport, Transport, TransportEvent};

verus! {

/// The argument of the `power` command.
#[derive(Clone, Copy, Debug, PartialEq, Eq, Structural)]
pub enum PowerState {
    On,
    Off,
}

/// What the command line asks for.
#[derive(Clone, Copy, Debug, PartialEq, Eq, Structural)]
pub enum Commands {
    Power { state: PowerState },
    Color { r: u8, g: u8, b: u8 },
    Pattern { index: u8 },
    Mic { sensitivity: u8 },
    Tui,
}

/// A parsed command line.
#[derive(Clone, Copy, Debug, PartialEq, Eq, Structural)]
pub struct BatLights {
    pub command: Commands,
}

/// The bytes of the single frame a one-shot command sends; `None` for the
/// interactive mode, which sends none by itself.
pub open spec fn command_bytes(cmd: Commands) -> Option<Seq<u8>> {
    match cmd {
        Commands::Power { state } => Some(power_frame(state == PowerState::On)),
        Commands::Color { r, g, b } => Some(color_frame(Color { r, g, b })),
        Commands::Pattern { index } => Some(pattern_frame(clamp_pattern(index))),
        Commands::Mic { sensitivity } => Some(mic_frame(sensitivity)),
        Commands::Tui => None,
    }
}

/// The frame a one-shot command sends.
pub fn command_frame(cmd: &Commands) -> (r: Option<Frame>)
    ensures
        command_bytes(*cmd) == match r {
            Some(f) => Some(f@),
            None => None::<Seq<u8>>,
        },
{
    match cmd {
        Commands::Power { state } => Some(
            encode_power(
                match state {
                    PowerState::On => true,
                    PowerState::Off => false,
                },
            ),
        ),
        Commands::Color { r, g, b } => Some(encode_color(Color { r: *r, g: *g, b: *b })),
        Commands::Pattern { index } => Some(encode_pattern(*index)),
        Commands::Mic { sensitivity } => Some(encode_mic(*sensitivity)),
        Commands::Tui => None,
    }
}

/// Runs a one-shot command: writes its one frame, then tears the transport
/// down once, even when the write failed. The interactive mode is not a
/// one-shot command: for it the transport is left untouched and `None` is
/// returned.
pub fn run_once<T: Transport>(transport: &mut T, cmd: &Commands) -> (r: Option<DeliveryReport>)
    ensures
        r is None <==> *cmd == Commands::Tui,
        r is None ==> final(transport).history() == old(transport).history(),
        match r {
            Some(report) => {
                let h = final(transport).history();
                let n = old(transport).history().len() as int;
                &&& h.len() == n + 2
                &&& h.subrange(0, n) == old(transport).history()
                &&& h[n] is Write
                &&& command_bytes(*cmd) == Some(h[n]->Write_frame@)
                &&& report.failures == if h[n]->Write_ok {
                    0usize
                } else {
                    1usize
                }
                &&& h[n + 1] == (TransportEvent::Disconnect { ok: report.disconnect is Ok })
            },
            None => true,
        },
{
    match command_frame(cmd) {
        Some(frame) => {
            let frames: Vec<Frame> = vec![frame];
            let ghost before = transport.history();
            let report = deliver_all(transport, &frames);
            proof {
                let n = before.len() as int;
                let w = transport.history().subrange(n, n + 1);
                assert(w[0] == transport.history()[n]);
                assert(w.drop_last().len() == 0);
                assert(failed_writes(w.drop_last()) == 0);
            }
            Some(report)
        },
        None => None,
    }
}

} // verus!
