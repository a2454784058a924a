//! Owned lighting effects built through the C API, and read accessors over
//! daemon events.

use vstd::prelude::*;

use crate::canonical::texts_of;
use crate::collections::{target_view, TargetView};
use crate::colour::{read_colour, read_rgb_array, Colour, ColourView, LuminateColourInput, LuminateRgb, Rgb, colour_message, colour_outcome};
use crate::input::{arg_bytes, read_owned_str, required_str_outcome};
use crate::management::{LuminateManagementChangeSetView, ManagementChangeSet};
use crate::policy::{drop_value, opt_str, set_text_at};
use crate::status::{holds_message, Diagnostics, LuminateStatus, TargetId};

verus! {

/// The direction a hardware effect runs in.
#[derive(Debug, Clone, Copy, PartialEq, Eq, Structural)]
pub enum EffectDirection {
    Forward,
    Reverse,
    Clockwise,
    CounterClockwise,
    Inward,
    Outward,
    Random,
}

/// The `LUMINATE_EFFECT_DIRECTION_*` code of a direction.
pub open spec fn direction_code(direction: EffectDirection) -> u32 {
    match direction {
        EffectDirection::Forward => 0,
        EffectDirection::Reverse => 1,
        EffectDirection::Clockwise => 2,
        EffectDirection::CounterClockwise => 3,
        EffectDirection::Inward => 4,
        EffectDirection::Outward => 5,
        EffectDirection::Random => 6,
    }
}

/// Encodes a direction as its C code.
pub fn direction_to_u32(direction: EffectDirection) -> (code: u32)
    ensures
        code == direction_code(direction),
{
    match direction {
        EffectDirection::Forward => 0,
        EffectDirection::Reverse => 1,
        EffectDirection::Clockwise => 2,
        EffectDirection::CounterClockwise => 3,
        EffectDirection::Inward => 4,
        EffectDirection::Outward => 5,
        EffectDirection::Random => 6,
    }
}

/// Decodes a direction code; unknown codes are `InvalidArgument`.
pub fn effect_direction(value: u32) -> (result: Result<EffectDirection, LuminateStatus>)
    ensures
        match result {
            Ok(direction) => direction_code(direction) == value,
            Err(status) => status == LuminateStatus::InvalidArgument && value > 6,
        },
{
    match value {
        0 => Ok(EffectDirection::Forward),
        1 => Ok(EffectDirection::Reverse),
        2 => Ok(EffectDirection::Clockwise),
        3 => Ok(EffectDirection::CounterClockwise),
        4 => Ok(EffectDirection::Inward),
        5 => Ok(EffectDirection::Outward),
        6 => Ok(EffectDirection::Random),
        _ => Err(LuminateStatus::InvalidArgument),
    }
}

/// Direction codes are exactly `0..=6`; each code names one direction, so
/// decoding and encoding are mutually inverse.
pub proof fn lemma_direction_codes_round_trip(direction: EffectDirection, code: u32)
    ensures
        direction_code(direction) <= 6,
        code <= 6 ==> exists|d: EffectDirection| direction_code(d) == code,
        direction_code(direction) == code ==> (forall|other: EffectDirection| direction_code(other) == code ==> other == direction),
{
    if code <= 6 {
        let d = if code == 0 { EffectDirection::Forward } else if code == 1 { EffectDirection::Reverse }
            else if code == 2 { EffectDirection::Clockwise } else if code == 3 { EffectDirection::CounterClockwise }
            else if code == 4 { EffectDirection::Inward } else if code == 5 { EffectDirection::Outward }
            else { EffectDirection::Random };
        assert(direction_code(d) == code);
    }
}

/// The C direction codes are fixed: forward 0, reverse 1, clockwise 2,
/// counter-clockwise 3, inward 4, outward 5, random 6.
pub proof fn lemma_direction_code_table()
    ensures
        direction_code(EffectDirection::Forward) == 0,
        direction_code(EffectDirection::Reverse) == 1,
        direction_code(EffectDirection::Clockwise) == 2,
        direction_code(EffectDirection::CounterClockwise) == 3,
        direction_code(EffectDirection::Inward) == 4,
        direction_code(EffectDirection::Outward) == 5,
        direction_code(EffectDirection::Random) == 6,
{
}

/// The optional arguments of a hardware effect.
#[derive(Debug, PartialEq)]
pub struct EffectArguments {
    pub colours: Vec<Rgb>,
    pub speed: Option<u16>,
    pub duration_ms: Option<u32>,
    pub brightness: Option<u32>,
    pub direction: Option<EffectDirection>,
    pub choice: Option<String>,
}

/// The content of hardware-effect arguments.
pub struct ArgumentsView {
    pub colours: Seq<Rgb>,
    pub speed: Option<u16>,
    pub duration_ms: Option<u32>,
    pub brightness: Option<u32>,
    pub direction: Option<EffectDirection>,
    pub choice: Option<Seq<char>>,
}

impl EffectArguments {
    pub open spec fn view(&self) -> ArgumentsView {
        ArgumentsView {
            colours: self.colours@,
            speed: self.speed,
            duration_ms: self.duration_ms,
            brightness: self.brightness,
            direction: self.direction,
            choice: match self.choice {
                Some(c) => Some(c@),
                None => None,
            },
        }
    }
}

/// A lighting effect.
#[derive(Debug, PartialEq)]
pub enum LuminateEffect {
    Off,
    Static { colour: Colour },
    Breathe { colour: Rgb, period_ms: u32 },
    Pulse { colour: Rgb, period_ms: u32 },
    Strobe { colour: Rgb, period_ms: u32 },
    Scanner { colour: Rgb, period_ms: u32 },
    Spectrum { period_ms: u32 },
    Rainbow { period_ms: u32 },
    Morph { colours: Vec<Rgb>, period_ms: u32 },
    Hardware { id: String, arguments: EffectArguments },
}

pub type Effect = LuminateEffect;

/// A borrowed effect is read through the same type as an owned one.
pub type LuminateEffectView = LuminateEffect;

/// The content of an effect.
pub enum EffectView {
    Off,
    Static { colour: ColourView },
    Breathe { colour: Rgb, period_ms: u32 },
    Pulse { colour: Rgb, period_ms: u32 },
    Strobe { colour: Rgb, period_ms: u32 },
    Scanner { colour: Rgb, period_ms: u32 },
    Spectrum { period_ms: u32 },
    Rainbow { period_ms: u32 },
    Morph { colours: Seq<Rgb>, period_ms: u32 },
    Hardware { id: Seq<char>, arguments: ArgumentsView },
}

impl LuminateEffect {
    pub open spec fn view(&self) -> EffectView {
        match *self {
            Effect::Off => EffectView::Off,
            Effect::Static { colour } => EffectView::Static { colour: colour.view() },
            Effect::Breathe { colour, period_ms } => EffectView::Breathe { colour, period_ms },
            Effect::Pulse { colour, period_ms } => EffectView::Pulse { colour, period_ms },
            Effect::Strobe { colour, period_ms } => EffectView::Strobe { colour, period_ms },
            Effect::Scanner { colour, period_ms } => EffectView::Scanner { colour, period_ms },
            Effect::Spectrum { period_ms } => EffectView::Spectrum { period_ms },
            Effect::Rainbow { period_ms } => EffectView::Rainbow { period_ms },
            Effect::Morph { colours, period_ms } => EffectView::Morph { colours: colours@, period_ms },
            Effect::Hardware { id, arguments } => EffectView::Hardware { id: id@, arguments: arguments.view() },
        }
    }
}

fn copy_rgbs(values: &Vec<Rgb>) -> (copy: Vec<Rgb>)
    ensures
        copy@ == values@,
{
    let mut copy: Vec<Rgb> = Vec::new();
    let mut i: usize = 0;
    while i < values.len()
        invariant
            0 <= i <= values@.len(),
            copy@ == values@.take(i as int),
        decreases values@.len() - i,
    {
        copy.push(values[i]);
        assert(copy@ =~= values@.take(i + 1));
        i = i + 1;
    }
    assert(values@.take(i as int) =~= values@);
    copy
}

impl EffectArguments {
    /// An independent copy of the arguments.
    pub fn duplicate(&self) -> (copy: EffectArguments)
        ensures
            copy.view() == self.view(),
    {
        EffectArguments {
            colours: copy_rgbs(&self.colours),
            speed: self.speed,
            duration_ms: self.duration_ms,
            brightness: self.brightness,
            direction: self.direction,
            choice: match &self.choice {
                Some(c) => Some(c.clone()),
                None => None,
            },
        }
    }
}

impl LuminateEffect {
    /// An independent deep copy of the effect.
    pub fn duplicate(&self) -> (copy: Effect)
        ensures
            copy.view() == self.view(),
    {
        match self {
            Effect::Off => Effect::Off,
            Effect::Static { colour } => Effect::Static { colour: colour.duplicate() },
            Effect::Breathe { colour, period_ms } => Effect::Breathe { colour: *colour, period_ms: *period_ms },
            Effect::Pulse { colour, period_ms } => Effect::Pulse { colour: *colour, period_ms: *period_ms },
            Effect::Strobe { colour, period_ms } => Effect::Strobe { colour: *colour, period_ms: *period_ms },
            Effect::Scanner { colour, period_ms } => Effect::Scanner { colour: *colour, period_ms: *period_ms },
            Effect::Spectrum { period_ms } => Effect::Spectrum { period_ms: *period_ms },
            Effect::Rainbow { period_ms } => Effect::Rainbow { period_ms: *period_ms },
            Effect::Morph { colours, period_ms } => Effect::Morph { colours: copy_rgbs(colours), period_ms: *period_ms },
            Effect::Hardware { id, arguments } => Effect::Hardware { id: id.clone(), arguments: arguments.duplicate() },
        }
    }
}

/// Stores an effect through an output slot; a missing slot is `NullPointer`.
pub fn boxed_effect(effect: Effect, out: Option<&mut Option<LuminateEffect>>) -> (status: LuminateStatus)
    ensures
        out is None ==> status == LuminateStatus::NullPointer,
        out matches Some(o) ==> status == LuminateStatus::Success && *final(o) == Some(effect),
{
    match out {
        None => LuminateStatus::NullPointer,
        Some(o) => {
            *o = Some(effect);
            LuminateStatus::Success
        },
    }
}

/// Whether an output slot holds an effect with the given content.
pub open spec fn holds_effect(slot: Option<LuminateEffect>, effect: EffectView) -> bool {
    slot matches Some(e) && e.view() == effect
}

/// Deep-copies a borrowed effect into an owned one; a null view is
/// `NullPointer` and writes nothing.
pub fn luminate_effect_view_clone(view: Option<&LuminateEffectView>, out_effect: Option<&mut Option<LuminateEffect>>) -> (status: LuminateStatus)
    ensures
        view is None ==> status == LuminateStatus::NullPointer && (out_effect matches Some(o) ==> *final(o) == *o),
        view matches Some(v) ==> (match out_effect { None => status == LuminateStatus::NullPointer, Some(o) => status == LuminateStatus::Success && holds_effect(*final(o), v.view()) }),
{
    let v = match view {
        None => return LuminateStatus::NullPointer,
        Some(v) => v,
    };
    boxed_effect(v.duplicate(), out_effect)
}

/// Builds a static effect from a copy of a borrowed colour; a null colour is
/// `NullPointer` and writes nothing.
pub fn luminate_effect_create_static_from_colour(colour: Option<&Colour>, out_effect: Option<&mut Option<LuminateEffect>>) -> (status: LuminateStatus)
    ensures
        colour is None ==> status == LuminateStatus::NullPointer && (out_effect matches Some(o) ==> *final(o) == *o),
        colour matches Some(c) ==> (match out_effect { None => status == LuminateStatus::NullPointer, Some(o) => status == LuminateStatus::Success && holds_effect(*final(o), EffectView::Static { colour: c.view() }) }),
{
    let c = match colour {
        None => return LuminateStatus::NullPointer,
        Some(c) => c,
    };
    boxed_effect(Effect::Static { colour: c.duplicate() }, out_effect)
}

/// Builds an off effect.
pub fn luminate_effect_create_off(out: Option<&mut Option<LuminateEffect>>) -> (status: LuminateStatus)
    ensures
        out is None ==> status == LuminateStatus::NullPointer,
        out matches Some(o) ==> status == LuminateStatus::Success && holds_effect(*final(o), EffectView::Off),
{
    boxed_effect(Effect::Off, out)
}

/// Builds a static effect from a decoded caller colour: a null colour is
/// `NullPointer`, a malformed one reports its decoding error; neither
/// writes the output, and each records its message.
pub fn luminate_effect_create_static(
    colour: Option<&LuminateColourInput>,
    out: Option<&mut Option<LuminateEffect>>,
    diagnostics: &mut Diagnostics,
) -> (status: LuminateStatus)
    requires
        colour matches Some(c) ==> c.wf(),
    ensures
        colour is None ==> status == LuminateStatus::NullPointer && (out matches Some(o) ==> *final(o) == *o)
            && holds_message(*final(diagnostics), "colour input pointer is null"@),
        colour matches Some(c) ==> match colour_outcome(*c) {
            Ok(view) => (match out { None => status == LuminateStatus::NullPointer, Some(o) => status == LuminateStatus::Success && holds_effect(*final(o), EffectView::Static { colour: view }) })
                && *final(diagnostics) == *old(diagnostics),
            Err(e) => status == e && (out matches Some(o) ==> *final(o) == *o)
                && holds_message(*final(diagnostics), colour_message(*c)),
        },
{
    let c = match colour {
        None => {
            diagnostics.record_message("colour input pointer is null");
            return LuminateStatus::NullPointer;
        },
        Some(c) => c,
    };
    let decoded = match read_colour(c, diagnostics) {
        Ok(value) => value,
        Err(status) => return status,
    };
    boxed_effect(Effect::Static { colour: decoded }, out)
}

pub fn luminate_effect_create_breathe(c: LuminateRgb, period: u32, out: Option<&mut Option<LuminateEffect>>) -> (status: LuminateStatus)
    ensures
        out is None ==> status == LuminateStatus::NullPointer,
        out matches Some(o) ==> status == LuminateStatus::Success && holds_effect(*final(o), EffectView::Breathe { colour: c, period_ms: period }),
{
    boxed_effect(Effect::Breathe { colour: c, period_ms: period }, out)
}

pub fn luminate_effect_create_pulse(c: LuminateRgb, period: u32, out: Option<&mut Option<LuminateEffect>>) -> (status: LuminateStatus)
    ensures
        out is None ==> status == LuminateStatus::NullPointer,
        out matches Some(o) ==> status == LuminateStatus::Success && holds_effect(*final(o), EffectView::Pulse { colour: c, period_ms: period }),
{
    boxed_effect(Effect::Pulse { colour: c, period_ms: period }, out)
}

pub fn luminate_effect_create_strobe(c: LuminateRgb, period: u32, out: Option<&mut Option<LuminateEffect>>) -> (status: LuminateStatus)
    ensures
        out is None ==> status == LuminateStatus::NullPointer,
        out matches Some(o) ==> status == LuminateStatus::Success && holds_effect(*final(o), EffectView::Strobe { colour: c, period_ms: period }),
{
    boxed_effect(Effect::Strobe { colour: c, period_ms: period }, out)
}

pub fn luminate_effect_create_scanner(c: LuminateRgb, period: u32, out: Option<&mut Option<LuminateEffect>>) -> (status: LuminateStatus)
    ensures
        out is None ==> status == LuminateStatus::NullPointer,
        out matches Some(o) ==> status == LuminateStatus::Success && holds_effect(*final(o), EffectView::Scanner { colour: c, period_ms: period }),
{
    boxed_effect(Effect::Scanner { colour: c, period_ms: period }, out)
}

pub fn luminate_effect_create_spectrum(period: u32, out: Option<&mut Option<LuminateEffect>>) -> (status: LuminateStatus)
    ensures
        out is None ==> status == LuminateStatus::NullPointer,
        out matches Some(o) ==> status == LuminateStatus::Success && holds_effect(*final(o), EffectView::Spectrum { period_ms: period }),
{
    boxed_effect(Effect::Spectrum { period_ms: period }, out)
}

pub fn luminate_effect_create_rainbow(period: u32, out: Option<&mut Option<LuminateEffect>>) -> (status: LuminateStatus)
    ensures
        out is None ==> status == LuminateStatus::NullPointer,
        out matches Some(o) ==> status == LuminateStatus::Success && holds_effect(*final(o), EffectView::Rainbow { period_ms: period }),
{
    boxed_effect(Effect::Rainbow { period_ms: period }, out)
}

/// Builds a morph effect over copies of `count` caller colours; a null array
/// with a non-zero count is `NullPointer` and writes nothing.
pub fn luminate_effect_create_morph(
    colours: Option<&[LuminateRgb]>,
    count: usize,
    period: u32,
    out: Option<&mut Option<LuminateEffect>>,
) -> (status: LuminateStatus)
    requires
        colours matches Some(items) ==> items@.len() == count,
    ensures
        count != 0 && colours is None ==> status == LuminateStatus::NullPointer && (out matches Some(o) ==> *final(o) == *o),
        count == 0 ==> (match out { None => status == LuminateStatus::NullPointer, Some(o) => status == LuminateStatus::Success && holds_effect(*final(o), EffectView::Morph { colours: Seq::empty(), period_ms: period }) }),
        count != 0 ==> (colours matches Some(items) ==> (match out { None => status == LuminateStatus::NullPointer, Some(o) => status == LuminateStatus::Success && holds_effect(*final(o), EffectView::Morph { colours: items@, period_ms: period }) })),
{
    let values = match read_rgb_array(colours, count) {
        Ok(values) => values,
        Err(status) => return status,
    };
    proof {
        if count == 0 {
            assert(values@ =~= Seq::<Rgb>::empty());
        }
    }
    boxed_effect(Effect::Morph { colours: values, period_ms: period }, out)
}

/// Arguments with nothing set.
pub open spec fn no_arguments() -> ArgumentsView {
    ArgumentsView {
        colours: Seq::empty(),
        speed: None,
        duration_ms: None,
        brightness: None,
        direction: None,
        choice: None,
    }
}

/// Builds a hardware effect selected by id, with no arguments set; an
/// unreadable id writes nothing.
pub fn luminate_effect_create_hardware(id: Option<&[u8]>, out: Option<&mut Option<LuminateEffect>>) -> (status: LuminateStatus)
    ensures
        match required_str_outcome(arg_bytes(id)) {
            Err(e) => status == e && (out matches Some(o) ==> *final(o) == *o),
            Ok(text) => (match out { None => status == LuminateStatus::NullPointer, Some(o) => status == LuminateStatus::Success && holds_effect(*final(o), EffectView::Hardware { id: text, arguments: no_arguments() }) }),
        },
{
    let text = match read_owned_str(id) {
        Ok(text) => text,
        Err(status) => return status,
    };
    let arguments = EffectArguments {
        colours: Vec::new(),
        speed: None,
        duration_ms: None,
        brightness: None,
        direction: None,
        choice: None,
    };
    assert(arguments.view().colours =~= Seq::<Rgb>::empty());
    boxed_effect(Effect::Hardware { id: text, arguments }, out)
}

/// One change to a hardware effect's arguments.
pub enum ArgumentUpdate {
    AddColour(Rgb),
    Speed(u16),
    Duration(u32),
    Brightness(u32),
    Direction(EffectDirection),
    Choice(String),
}

/// Arguments after one update.
pub open spec fn updated(arguments: ArgumentsView, update: ArgumentUpdate) -> ArgumentsView {
    match update {
        ArgumentUpdate::AddColour(c) => ArgumentsView { colours: arguments.colours.push(c), ..arguments },
        ArgumentUpdate::Speed(x) => ArgumentsView { speed: Some(x), ..arguments },
        ArgumentUpdate::Duration(x) => ArgumentsView { duration_ms: Some(x), ..arguments },
        ArgumentUpdate::Brightness(x) => ArgumentsView { brightness: Some(x), ..arguments },
        ArgumentUpdate::Direction(x) => ArgumentsView { direction: Some(x), ..arguments },
        ArgumentUpdate::Choice(x) => ArgumentsView { choice: Some(x@), ..arguments },
    }
}

/// The outcome of updating a present effect's hardware arguments: a
/// non-hardware effect is `InvalidArgument` and unchanged.
pub open spec fn argument_update_result(before: LuminateEffect, after: LuminateEffect, status: LuminateStatus, update: ArgumentUpdate) -> bool {
    match before {
        Effect::Hardware { id, arguments } => status == LuminateStatus::Success
            && after.view() == EffectView::Hardware { id: id@, arguments: updated(arguments.view(), update) },
        _ => status == LuminateStatus::InvalidArgument && after == before,
    }
}

/// Applies one update to the arguments of a hardware effect.
pub fn update_arguments(effect: Option<&mut LuminateEffect>, update: ArgumentUpdate) -> (status: LuminateStatus)
    ensures
        (match effect { None => status == LuminateStatus::NullPointer, Some(e) => argument_update_result(*e, *final(e), status, update) }),
{
    let e = match effect {
        None => return LuminateStatus::NullPointer,
        Some(e) => e,
    };
    match e {
        Effect::Hardware { .. } => {},
        _ => return LuminateStatus::InvalidArgument,
    }
    let mut current = Effect::Off;
    std::mem::swap(&mut current, e);
    match current {
        Effect::Hardware { id, mut arguments } => {
            let ghost before = arguments.view();
            match update {
                ArgumentUpdate::AddColour(c) => arguments.colours.push(c),
                ArgumentUpdate::Speed(x) => arguments.speed = Some(x),
                ArgumentUpdate::Duration(x) => arguments.duration_ms = Some(x),
                ArgumentUpdate::Brightness(x) => arguments.brightness = Some(x),
                ArgumentUpdate::Direction(x) => arguments.direction = Some(x),
                ArgumentUpdate::Choice(x) => arguments.choice = Some(x),
            }
            assert(arguments.view().colours =~= updated(before, update).colours);
            *e = Effect::Hardware { id, arguments };
        },
        other => {
            *e = other;
        },
    }
    LuminateStatus::Success
}

/// Appends a colour to a hardware effect's colour list.
pub fn luminate_effect_hardware_add_colour(v: Option<&mut LuminateEffect>, c: LuminateRgb) -> (status: LuminateStatus)
    ensures
        (match v { None => status == LuminateStatus::NullPointer, Some(e) => argument_update_result(*e, *final(e), status, ArgumentUpdate::AddColour(c)) }),
{
    update_arguments(v, ArgumentUpdate::AddColour(c))
}

pub fn luminate_effect_hardware_set_speed(v: Option<&mut LuminateEffect>, x: u16) -> (status: LuminateStatus)
    ensures
        (match v { None => status == LuminateStatus::NullPointer, Some(e) => argument_update_result(*e, *final(e), status, ArgumentUpdate::Speed(x)) }),
{
    update_arguments(v, ArgumentUpdate::Speed(x))
}

pub fn luminate_effect_hardware_set_duration_ms(v: Option<&mut LuminateEffect>, x: u32) -> (status: LuminateStatus)
    ensures
        (match v { None => status == LuminateStatus::NullPointer, Some(e) => argument_update_result(*e, *final(e), status, ArgumentUpdate::Duration(x)) }),
{
    update_arguments(v, ArgumentUpdate::Duration(x))
}

pub fn luminate_effect_hardware_set_brightness(v: Option<&mut LuminateEffect>, x: u32) -> (status: LuminateStatus)
    ensures
        (match v { None => status == LuminateStatus::NullPointer, Some(e) => argument_update_result(*e, *final(e), status, ArgumentUpdate::Brightness(x)) }),
{
    update_arguments(v, ArgumentUpdate::Brightness(x))
}

/// Sets the direction of a hardware effect. The code is checked before the
/// effect: an unknown code is `InvalidArgument` whatever the effect.
pub fn luminate_effect_hardware_set_direction(v: Option<&mut LuminateEffect>, x: u32) -> (status: LuminateStatus)
    ensures
        x > 6 ==> status == LuminateStatus::InvalidArgument && (v matches Some(e) ==> *final(e) == *e),
        x <= 6 ==> exists|d: EffectDirection| direction_code(d) == x
            && (match v { None => status == LuminateStatus::NullPointer, Some(e) => argument_update_result(*e, *final(e), status, ArgumentUpdate::Direction(d)) }),
{
    let d = match effect_direction(x) {
        Ok(d) => d,
        Err(status) => return status,
    };
    update_arguments(v, ArgumentUpdate::Direction(d))
}

/// Sets the named choice of a hardware effect. The choice string is read
/// before the effect is checked; an unreadable choice leaves it unchanged.
pub fn luminate_effect_hardware_set_choice(v: Option<&mut LuminateEffect>, x: Option<&[u8]>) -> (status: LuminateStatus)
    ensures
        match required_str_outcome(arg_bytes(x)) {
            Err(e) => status == e && (v matches Some(eff) ==> *final(eff) == *eff),
            Ok(text) => exists|s: String| s@ == text && (match v { None => status == LuminateStatus::NullPointer, Some(e) => argument_update_result(*e, *final(e), status, ArgumentUpdate::Choice(s)) }),
        },
{
    let text = match read_owned_str(x) {
        Ok(text) => text,
        Err(status) => return status,
    };
    update_arguments(v, ArgumentUpdate::Choice(text))
}

/// Releases an owned effect. Null is a no-op.
pub fn luminate_effect_free(value: Option<Box<LuminateEffect>>) {
    drop_value(value);
}

} // verus!

verus! {

/// A notification from the daemon.
#[derive(Debug)]
pub enum Event {
    TopologyChanged { devices: Vec<String> },
    StateChanged { devices: Vec<String> },
    ShmStreamEnded { target: TargetId, generation: u32 },
    ConfigurationChanged { changes: ManagementChangeSet },
    ScenesChanged,
    TransitionsChanged { transitions: Vec<String> },
    ResyncRequired,
}

/// An owned event.
#[derive(Debug)]
pub struct LuminateEvent(pub Event);

/// The C event codes are fixed: topology changed 0, state changed 1, shared
/// memory stream ended 2, configuration changed 3, scenes changed 4,
/// transitions changed 5, resynchronisation required 6.
pub proof fn lemma_event_code_table(event: Event)
    ensures
        event is TopologyChanged ==> event_code(event) == 0,
        event is StateChanged ==> event_code(event) == 1,
        event is ShmStreamEnded ==> event_code(event) == 2,
        event is ConfigurationChanged ==> event_code(event) == 3,
        event is ScenesChanged ==> event_code(event) == 4,
        event is TransitionsChanged ==> event_code(event) == 5,
        event is ResyncRequired ==> event_code(event) == 6,
{
}

/// The `LUMINATE_EVENT_*` code of an event.
pub open spec fn event_code(event: Event) -> u32 {
    match event {
        Event::TopologyChanged { .. } => 0,
        Event::StateChanged { .. } => 1,
        Event::ShmStreamEnded { .. } => 2,
        Event::ConfigurationChanged { .. } => 3,
        Event::ScenesChanged => 4,
        Event::TransitionsChanged { .. } => 5,
        Event::ResyncRequired => 6,
    }
}

pub fn luminate_event_kind(v: Option<&LuminateEvent>) -> (code: u32)
    ensures
        code == match v { Some(e) => event_code(e.0), None => 0xffff_ffffu32 },
{
    match v {
        Some(e) => match &e.0 {
            Event::TopologyChanged { .. } => 0,
            Event::StateChanged { .. } => 1,
            Event::ShmStreamEnded { .. } => 2,
            Event::ConfigurationChanged { .. } => 3,
            Event::ScenesChanged => 4,
            Event::TransitionsChanged { .. } => 5,
            Event::ResyncRequired => 6,
        },
        None => 0xffff_ffff,
    }
}

/// Device ids of a topology event; empty for other events.
pub open spec fn topology_devices(v: Option<&LuminateEvent>) -> Seq<Seq<char>> {
    match v {
        Some(e) => match e.0 {
            Event::TopologyChanged { devices } => texts_of(devices@),
            _ => Seq::empty(),
        },
        None => Seq::empty(),
    }
}

/// Device ids of a state event; empty for other events.
pub open spec fn state_devices(v: Option<&LuminateEvent>) -> Seq<Seq<char>> {
    match v {
        Some(e) => match e.0 {
            Event::StateChanged { devices } => texts_of(devices@),
            _ => Seq::empty(),
        },
        None => Seq::empty(),
    }
}

/// Transition ids of a transitions event; empty for other events.
pub open spec fn event_transitions(v: Option<&LuminateEvent>) -> Seq<Seq<char>> {
    match v {
        Some(e) => match e.0 {
            Event::TransitionsChanged { transitions } => texts_of(transitions@),
            _ => Seq::empty(),
        },
        None => Seq::empty(),
    }
}

pub fn luminate_event_topology_device_count(v: Option<&LuminateEvent>) -> (count: usize)
    ensures
        count == topology_devices(v).len(),
{
    match v {
        Some(e) => match &e.0 {
            Event::TopologyChanged { devices } => devices.len(),
            _ => 0,
        },
        None => 0,
    }
}

pub fn luminate_event_topology_device_at(v: Option<&LuminateEvent>, i: usize) -> (text: Option<&str>)
    ensures
        opt_str(text) == set_text_at(topology_devices(v), i),
{
    match v {
        Some(e) => match &e.0 {
            Event::TopologyChanged { devices } => crate::management::string_at(devices, i),
            _ => None,
        },
        None => None,
    }
}

pub fn luminate_event_state_device_count(v: Option<&LuminateEvent>) -> (count: usize)
    ensures
        count == state_devices(v).len(),
{
    match v {
        Some(e) => match &e.0 {
            Event::StateChanged { devices } => devices.len(),
            _ => 0,
        },
        None => 0,
    }
}

pub fn luminate_event_state_device_at(v: Option<&LuminateEvent>, i: usize) -> (text: Option<&str>)
    ensures
        opt_str(text) == set_text_at(state_devices(v), i),
{
    match v {
        Some(e) => match &e.0 {
            Event::StateChanged { devices } => crate::management::string_at(devices, i),
            _ => None,
        },
        None => None,
    }
}

/// Target of a shared-memory-stream-ended event.
pub fn luminate_event_shm_stream_target(v: Option<&LuminateEvent>) -> (target: Option<&TargetId>)
    ensures
        match v {
            Some(e) => match e.0 {
                Event::ShmStreamEnded { target: t, .. } => target == Some(&t),
                _ => target is None,
            },
            None => target is None,
        },
{
    match v {
        Some(e) => match &e.0 {
            Event::ShmStreamEnded { target, .. } => Some(target),
            _ => None,
        },
        None => None,
    }
}

/// Writes the generation of a shared-memory-stream-ended event; false,
/// writing nothing, for other events, null events or a null output.
pub fn luminate_event_shm_stream_generation(v: Option<&LuminateEvent>, out_generation: Option<&mut u32>) -> (written: bool)
    ensures
        written == ((v matches Some(e) && e.0 is ShmStreamEnded) && out_generation is Some),
        out_generation matches Some(o) ==> (if written {
            v matches Some(e) && e.0 matches Event::ShmStreamEnded { generation, .. } && *final(o) == generation
        } else {
            *final(o) == *o
        }),
{
    match (v, out_generation) {
        (Some(e), Some(o)) => match &e.0 {
            Event::ShmStreamEnded { generation, .. } => {
                *o = *generation;
                true
            },
            _ => false,
        },
        _ => false,
    }
}

pub fn luminate_event_transition_count(v: Option<&LuminateEvent>) -> (count: usize)
    ensures
        count == event_transitions(v).len(),
{
    match v {
        Some(e) => match &e.0 {
            Event::TransitionsChanged { transitions } => transitions.len(),
            _ => 0,
        },
        None => 0,
    }
}

pub fn luminate_event_transition_id_at(v: Option<&LuminateEvent>, index: usize) -> (text: Option<&str>)
    ensures
        opt_str(text) == set_text_at(event_transitions(v), index),
{
    match v {
        Some(e) => match &e.0 {
            Event::TransitionsChanged { transitions } => crate::management::string_at(transitions, index),
            _ => None,
        },
        None => None,
    }
}

/// Borrowed change set of a configuration-changed event.
pub fn luminate_event_configuration_changes(v: Option<&LuminateEvent>) -> (changes: Option<&LuminateManagementChangeSetView>)
    ensures
        match v {
            Some(e) => match e.0 {
                Event::ConfigurationChanged { changes: c } => changes == Some(&c),
                _ => changes is None,
            },
            None => changes is None,
        },
{
    match v {
        Some(e) => match &e.0 {
            Event::ConfigurationChanged { changes } => Some(changes),
            _ => None,
        },
        None => None,
    }
}

/// Releases an owned event. Null is a no-op.
pub fn luminate_event_free(value: Option<Box<LuminateEvent>>) {
    drop_value(value);
}

} // verus!
