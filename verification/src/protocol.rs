//! The plugin UI events that drive the companion, as plain values.
use vstd::prelude::*;

verus! {

/// The frames a plugin supplies for the companion's face, per motion.
pub struct PluginUiAnimation {
    pub idle_frames: Vec<String>,
    pub idle_frame_ms: Option<u64>,
    pub reaction_frames: Vec<String>,
    pub reaction_frame_ms: Option<u64>,
    pub pet_frames: Vec<String>,
    pub pet_frame_ms: Option<u64>,
}

/// An event sent by a UI plugin.
pub enum PluginUiEvent {
    /// The plugin shows, hides, mutes or restyles its companion.
    Presence {
        plugin: String,
        visible: bool,
        muted: bool,
        label: Option<String>,
        subtitle: Option<String>,
        badge: Option<String>,
        face: Option<String>,
        color: Option<String>,
        species: Option<String>,
        reserved_columns: Option<u16>,
        animation: Option<PluginUiAnimation>,
    },
    /// The companion says something, for `ttl_ms` milliseconds.
    Reaction { plugin: String, text: String, kind: Option<String>, ttl_ms: Option<u64> },
    /// The companion is petted, for `ttl_ms` milliseconds.
    Pet { plugin: String, ttl_ms: Option<u64> },
}

/// The abstract value of a `PluginUiAnimation`.
pub struct AnimationView {
    pub idle_frames: Seq<Seq<char>>,
    pub idle_frame_ms: Option<u64>,
    pub reaction_frames: Seq<Seq<char>>,
    pub reaction_frame_ms: Option<u64>,
    pub pet_frames: Seq<Seq<char>>,
    pub pet_frame_ms: Option<u64>,
}

/// The abstract value of a `PluginUiEvent`.
pub enum EventView {
    Presence {
        plugin: Seq<char>,
        visible: bool,
        muted: bool,
        label: Option<Seq<char>>,
        subtitle: Option<Seq<char>>,
        badge: Option<Seq<char>>,
        face: Option<Seq<char>>,
        color: Option<Seq<char>>,
        species: Option<Seq<char>>,
        reserved_columns: Option<u16>,
        animation: Option<AnimationView>,
    },
    Reaction { plugin: Seq<char>, text: Seq<char>, kind: Option<Seq<char>>, ttl_ms: Option<u64> },
    Pet { plugin: Seq<char>, ttl_ms: Option<u64> },
}

pub open spec fn strings_view(v: Seq<String>) -> Seq<Seq<char>> {
    v.map_values(|s: String| s@)
}

pub open spec fn opt_string_view(o: Option<String>) -> Option<Seq<char>> {
    match o {
        Some(s) => Some(s@),
        None => None,
    }
}

pub open spec fn opt_animation_view(o: Option<PluginUiAnimation>) -> Option<AnimationView> {
    match o {
        Some(a) => Some(a@),
        None => None,
    }
}

impl View for PluginUiAnimation {
    type V = AnimationView;

    open spec fn view(&self) -> AnimationView {
        AnimationView {
            idle_frames: strings_view(self.idle_frames@),
            idle_frame_ms: self.idle_frame_ms,
            reaction_frames: strings_view(self.reaction_frames@),
            reaction_frame_ms: self.reaction_frame_ms,
            pet_frames: strings_view(self.pet_frames@),
            pet_frame_ms: self.pet_frame_ms,
        }
    }
}

impl View for PluginUiEvent {
    type V = EventView;

    open spec fn view(&self) -> EventView {
        match self {
            PluginUiEvent::Presence {
                plugin,
                visible,
                muted,
                label,
                subtitle,
                badge,
                face,
                color,
                species,
                reserved_columns,
                animation,
            } => EventView::Presence {
                plugin: plugin@,
                visible: *visible,
                muted: *muted,
                label: opt_string_view(*label),
                subtitle: opt_string_view(*subtitle),
                badge: opt_string_view(*badge),
                face: opt_string_view(*face),
                color: opt_string_view(*color),
                species: opt_string_view(*species),
                reserved_columns: *reserved_columns,
                animation: opt_animation_view(*animation),
            },
            PluginUiEvent::Reaction { plugin, text, kind, ttl_ms } => EventView::Reaction {
                plugin: plugin@,
                text: text@,
                kind: opt_string_view(*kind),
                ttl_ms: *ttl_ms,
            },
            PluginUiEvent::Pet { plugin, ttl_ms } => EventView::Pet {
                plugin: plugin@,
                ttl_ms: *ttl_ms,
            },
        }
    }
}

/// The views of a sequence of events.
pub open spec fn events_view(events: Seq<PluginUiEvent>) -> Seq<EventView> {
    events.map_values(|e: PluginUiEvent| e@)
}

/// A copy of each string.
pub fn clone_strings(v: &Vec<String>) -> (r: Vec<String>)
    ensures
        strings_view(r@) == strings_view(v@),
{
    let mut r: Vec<String> = Vec::new();
    for i in 0..v.len()
        invariant
            r@.len() == i,
            forall|k: int| 0 <= k < i ==> (#[trigger] r@[k])@ == v@[k]@,
    {
        r.push(v[i].clone());
    }
    assert(strings_view(r@) =~= strings_view(v@));
    r
}

/// A copy of an optional string.
pub fn clone_opt_string(o: &Option<String>) -> (r: Option<String>)
    ensures
        opt_string_view(r) == opt_string_view(*o),
{
    match o {
        Some(s) => Some(s.clone()),
        None => None,
    }
}

impl PluginUiAnimation {
    /// A copy of this animation.
    pub fn duplicate(&self) -> (r: PluginUiAnimation)
        ensures
            r@ == self@,
    {
        PluginUiAnimation {
            idle_frames: clone_strings(&self.idle_frames),
            idle_frame_ms: self.idle_frame_ms,
            reaction_frames: clone_strings(&self.reaction_frames),
            reaction_frame_ms: self.reaction_frame_ms,
            pet_frames: clone_strings(&self.pet_frames),
            pet_frame_ms: self.pet_frame_ms,
        }
    }
}

/// A copy of an optional animation.
pub fn clone_opt_animation(o: &Option<PluginUiAnimation>) -> (r: Option<PluginUiAnimation>)
    ensures
        opt_animation_view(r) == opt_animation_view(*o),
{
    match o {
        Some(a) => Some(a.duplicate()),
        None => None,
    }
}

} // verus!
