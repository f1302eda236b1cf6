//! What the plugin tells its host about itself.

use vstd::prelude::*;

verus! {

/// The category the plugin declares to its host.
#[derive(Clone, Copy, PartialEq, Eq, Structural, Debug)]
pub enum PluginCategory {
    /// An instrument that produces sound from note events.
    Synthesizer,
}

/// The host-facing description of the plugin.
pub struct PluginDescriptor {
    /// Display name.
    pub name: String,
    /// Stable identifier that hosts use to tell plugins apart.
    pub unique_id: i32,
    /// Number of audio inputs.
    pub inputs: i32,
    /// Number of audio outputs.
    pub outputs: i32,
    /// Number of host-visible parameters.
    pub parameters: i32,
    /// Declared category.
    pub category: PluginCategory,
}

/// The description of this plugin: a two-channel synthesizer named
/// `Whisper` with no inputs and one parameter.
pub fn descriptor() -> (d: PluginDescriptor)
    ensures
        d.name@ == "Whisper"@,
        d.unique_id == 1337,
        d.inputs == 0,
        d.outputs == 2,
        d.parameters == 1,
        d.category == PluginCategory::Synthesizer,
{
    PluginDescriptor {
        name: "Whisper".to_owned(),
        unique_id: 1337,
        inputs: 0,
        outputs: 2,
        parameters: 1,
        category: PluginCategory::Synthesizer,
    }
}

/// The plugin affirmatively supports receiving MIDI events; every
/// other host capability query is left unanswered.
pub fn supports_receive_midi() -> (r: bool)
    ensures
        r,
{
    true
}

} // verus!
