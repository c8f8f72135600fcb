//! The audio mixer panel: a sink's volume and mute state, shown as a ramp
//! glyph and the volume.
use vstd::prelude::*;
use crate::attrs::{overlay_spec, Attrs};
use crate::ramp::Ramp;
use crate::relay::{relay_step, Relay, RelayAction, RelayState, WorkerStatus};

verus! {

/// A reading of the sink: its raw volume and whether it is muted.
pub type SinkReading = (u32, bool);

/// Shows the volume of an audio sink.
pub struct Pulseaudio {
    pub sink: String,
    pub server: Option<String>,
    pub ramp: Option<Ramp>,
    pub muted_ramp: Option<Ramp>,
    pub attrs: Attrs,
    pub relay: Relay,
}

/// The name of the server's default sink.
pub open spec fn default_sink() -> Seq<char> {
    "@DEFAULT_SINK@"@
}

impl Pulseaudio {
    /// Every ramp given is well formed.
    pub open spec fn wf(&self) -> bool {
        &&& (self.ramp.is_some() ==> self.ramp.unwrap().wf())
        &&& (self.muted_ramp.is_some() ==> self.muted_ramp.unwrap().wf())
    }

    /// The ramp in use: the muted ramp while muted, if there is one, else the
    /// normal ramp.
    pub open spec fn active_ramp(&self, mute: bool) -> Option<Ramp> {
        if mute && self.muted_ramp.is_some() {
            self.muted_ramp
        } else {
            self.ramp
        }
    }

    /// The glyph shown before the volume; empty without a ramp.
    pub open spec fn prefix(&self, volume: u32, mute: bool) -> Seq<char> {
        match self.active_ramp(mute) {
            Some(r) => r.glyph_for(volume),
            None => Seq::empty(),
        }
    }

    /// A panel for `sink` (the default sink when none is given) on `server`
    /// (the default server when none is given), with its ramps and
    /// attributes. No worker runs yet.
    pub fn new(
        sink: Option<String>,
        server: Option<String>,
        ramp: Option<Ramp>,
        muted_ramp: Option<Ramp>,
        attrs: Attrs,
    ) -> (r: Pulseaudio)
        ensures
            sink.is_some() ==> r.sink == sink.unwrap(),
            sink.is_none() ==> r.sink@ == default_sink(),
            r.server == server,
            r.ramp == ramp,
            r.muted_ramp == muted_ramp,
            r.attrs == attrs,
            r.relay.state == RelayState::Idle,
    {
        let sink = match sink {
            Some(s) => s,
            None => String::from_str("@DEFAULT_SINK@"),
        };
        Pulseaudio { sink, server, ramp, muted_ramp, attrs, relay: Relay::new() }
    }

    /// Overlays the panel's attributes onto the bar's global ones.
    pub fn apply_global_attrs(&mut self, global: Attrs)
        ensures
            final(self).attrs == overlay_spec(global, old(self).attrs),
            final(self).sink == old(self).sink,
            final(self).server == old(self).server,
            final(self).ramp == old(self).ramp,
            final(self).muted_ramp == old(self).muted_ramp,
            final(self).relay == old(self).relay,
    {
        self.attrs.apply_to(&global);
    }

    /// The text shown for a reading: the ramp glyph for `volume`, followed
    /// by `volume_text`, the volume as the audio server prints it.
    pub fn label(&self, volume: u32, mute: bool, volume_text: &str) -> (r: String)
        requires
            self.wf(),
        ensures
            r@ == self.prefix(volume, mute) + volume_text@,
    {
        let ramp = if mute && self.muted_ramp.is_some() {
            &self.muted_ramp
        } else {
            &self.ramp
        };
        let prefix = match ramp {
            Some(r) => r.select(volume),
            None => String::new(),
        };
        assert(prefix@ == self.prefix(volume, mute));
        prefix.concat(volume_text)
    }

    /// One poll of the panel's update source: what was seen of the worker
    /// that waits on the server's readings, and what to do.
    pub fn poll(&mut self, seen: WorkerStatus<SinkReading>) -> (action: RelayAction<
        SinkReading,
    >)
        ensures
            (final(self).relay.state, action) == relay_step(old(self).relay.state, seen),
            action is Spawn ==> old(self).relay.state == RelayState::Idle,
    {
        self.relay.poll(seen)
    }
}

impl Default for Pulseaudio {
    /// The default sink on the default server, with no ramp and no attribute
    /// set.
    fn default() -> (r: Pulseaudio)
        ensures
            r.sink@ == default_sink(),
            r.server.is_none(),
            r.ramp.is_none(),
            r.muted_ramp.is_none(),
            r.attrs.is_unset(),
            r.relay.state == RelayState::Idle,
    {
        Pulseaudio::new(None, None, None, None, Attrs::unset())
    }
}

} // verus!
