//! Decoding of the generic colour input shared by the C client surface:
//! an encoding code plus a counted array of channel/value pairs.

use vstd::prelude::*;

use crate::status::{holds_message, Diagnostics, LuminateStatus};

verus! {

/// How a colour's channels are encoded.
#[derive(Debug, Clone, Copy, PartialEq, Eq, Structural)]
pub enum ColourEncoding {
    Additive,
    Hsv,
    Hsl,
    Cct,
    Monochrome,
}

/// The identity of one colour channel.
#[derive(Debug, Clone, Copy, PartialEq, Eq, Structural)]
pub enum ColourChannel {
    Red,
    Green,
    Blue,
    White,
    WarmWhite,
    CoolWhite,
    Amber,
    Ultraviolet,
    Hue,
    Saturation,
    Value,
    Lightness,
    Temperature,
    Intensity,
}

/// One channel and its value.
#[derive(Debug, Clone, Copy, PartialEq, Eq, Structural)]
pub struct ColourChannelValue {
    pub channel: ColourChannel,
    pub value: u32,
}

/// A decoded colour.
#[derive(Debug, PartialEq)]
pub enum Colour {
    /// Additive channels, in the order given.
    Additive(Vec<ColourChannelValue>),
    Hsv { hue: u32, saturation: u32, value: u32 },
    Hsl { hue: u32, saturation: u32, lightness: u32 },
    Cct(u32),
    Monochrome(u32),
}

/// The content of a colour.
pub enum ColourView {
    Additive(Seq<ColourChannelValue>),
    Hsv { hue: u32, saturation: u32, value: u32 },
    Hsl { hue: u32, saturation: u32, lightness: u32 },
    Cct(u32),
    Monochrome(u32),
}

impl Colour {
    pub open spec fn view(&self) -> ColourView {
        match *self {
            Colour::Additive(channels) => ColourView::Additive(channels@),
            Colour::Hsv { hue, saturation, value } => ColourView::Hsv { hue, saturation, value },
            Colour::Hsl { hue, saturation, lightness } => ColourView::Hsl { hue, saturation, lightness },
            Colour::Cct(kelvin) => ColourView::Cct(kelvin),
            Colour::Monochrome(intensity) => ColourView::Monochrome(intensity),
        }
    }
}

/// One caller-owned channel/value pair; `channel` is a
/// `LUMINATE_COLOUR_CHANNEL_*` code.
#[derive(Debug, Clone, Copy)]
pub struct LuminateColourChannelInput {
    pub channel: u32,
    pub value: u32,
}

/// A caller-owned colour: an encoding code and `channel_count` channels.
#[derive(Debug, Clone, Copy)]
pub struct LuminateColourInput<'a> {
    pub encoding: u32,
    pub channels: Option<&'a [LuminateColourChannelInput]>,
    pub channel_count: usize,
}

impl<'a> LuminateColourInput<'a> {
    /// A present channel array holds exactly the counted entries.
    pub open spec fn wf(&self) -> bool {
        self.channels matches Some(items) ==> items@.len() == self.channel_count
    }
}

/// The `LUMINATE_COLOUR_ENCODING_*` code of an encoding.
pub open spec fn encoding_code(encoding: ColourEncoding) -> u32 {
    match encoding {
        ColourEncoding::Additive => 0,
        ColourEncoding::Hsv => 1,
        ColourEncoding::Hsl => 2,
        ColourEncoding::Cct => 3,
        ColourEncoding::Monochrome => 4,
    }
}

/// The `LUMINATE_COLOUR_CHANNEL_*` code of a channel.
pub open spec fn channel_code(channel: ColourChannel) -> u32 {
    match channel {
        ColourChannel::Red => 0,
        ColourChannel::Green => 1,
        ColourChannel::Blue => 2,
        ColourChannel::White => 3,
        ColourChannel::WarmWhite => 4,
        ColourChannel::CoolWhite => 5,
        ColourChannel::Amber => 6,
        ColourChannel::Ultraviolet => 7,
        ColourChannel::Hue => 8,
        ColourChannel::Saturation => 9,
        ColourChannel::Value => 10,
        ColourChannel::Lightness => 11,
        ColourChannel::Temperature => 12,
        ColourChannel::Intensity => 13,
    }
}

/// Decoding of a colour-encoding code: unknown codes are rejected.
pub open spec fn encoding_outcome(value: u32) -> Result<ColourEncoding, LuminateStatus> {
    if value == 0 {
        Ok(ColourEncoding::Additive)
    } else if value == 1 {
        Ok(ColourEncoding::Hsv)
    } else if value == 2 {
        Ok(ColourEncoding::Hsl)
    } else if value == 3 {
        Ok(ColourEncoding::Cct)
    } else if value == 4 {
        Ok(ColourEncoding::Monochrome)
    } else {
        Err(LuminateStatus::InvalidArgument)
    }
}

/// Decoding of a colour-channel code: unknown codes are rejected.
pub open spec fn channel_outcome(value: u32) -> Result<ColourChannel, LuminateStatus> {
    if value == 0 {
        Ok(ColourChannel::Red)
    } else if value == 1 {
        Ok(ColourChannel::Green)
    } else if value == 2 {
        Ok(ColourChannel::Blue)
    } else if value == 3 {
        Ok(ColourChannel::White)
    } else if value == 4 {
        Ok(ColourChannel::WarmWhite)
    } else if value == 5 {
        Ok(ColourChannel::CoolWhite)
    } else if value == 6 {
        Ok(ColourChannel::Amber)
    } else if value == 7 {
        Ok(ColourChannel::Ultraviolet)
    } else if value == 8 {
        Ok(ColourChannel::Hue)
    } else if value == 9 {
        Ok(ColourChannel::Saturation)
    } else if value == 10 {
        Ok(ColourChannel::Value)
    } else if value == 11 {
        Ok(ColourChannel::Lightness)
    } else if value == 12 {
        Ok(ColourChannel::Temperature)
    } else if value == 13 {
        Ok(ColourChannel::Intensity)
    } else {
        Err(LuminateStatus::InvalidArgument)
    }
}

/// The message an unknown colour-encoding code records.
pub open spec fn encoding_message() -> Seq<char> {
    "invalid LuminateColourEncoding"@
}

/// The message an unknown colour-channel code records.
pub open spec fn channel_message() -> Seq<char> {
    "invalid LuminateColourChannel"@
}

/// Decodes a colour-encoding code; an unknown code records its message.
pub fn colour_encoding(value: u32, diagnostics: &mut Diagnostics) -> (result: Result<ColourEncoding, LuminateStatus>)
    ensures
        result == encoding_outcome(value),
        result is Ok ==> *final(diagnostics) == *old(diagnostics),
        result is Err ==> holds_message(*final(diagnostics), encoding_message()),
{
    if value > 4 {
        diagnostics.record_message("invalid LuminateColourEncoding");
    }
    match value {
        0 => Ok(ColourEncoding::Additive),
        1 => Ok(ColourEncoding::Hsv),
        2 => Ok(ColourEncoding::Hsl),
        3 => Ok(ColourEncoding::Cct),
        4 => Ok(ColourEncoding::Monochrome),
        _ => Err(LuminateStatus::InvalidArgument),
    }
}

/// Decodes a colour-channel code; an unknown code records its message.
pub fn colour_channel(value: u32, diagnostics: &mut Diagnostics) -> (result: Result<ColourChannel, LuminateStatus>)
    ensures
        result == channel_outcome(value),
        result is Ok ==> *final(diagnostics) == *old(diagnostics),
        result is Err ==> holds_message(*final(diagnostics), channel_message()),
{
    if value > 13 {
        diagnostics.record_message("invalid LuminateColourChannel");
    }
    match value {
        0 => Ok(ColourChannel::Red),
        1 => Ok(ColourChannel::Green),
        2 => Ok(ColourChannel::Blue),
        3 => Ok(ColourChannel::White),
        4 => Ok(ColourChannel::WarmWhite),
        5 => Ok(ColourChannel::CoolWhite),
        6 => Ok(ColourChannel::Amber),
        7 => Ok(ColourChannel::Ultraviolet),
        8 => Ok(ColourChannel::Hue),
        9 => Ok(ColourChannel::Saturation),
        10 => Ok(ColourChannel::Value),
        11 => Ok(ColourChannel::Lightness),
        12 => Ok(ColourChannel::Temperature),
        13 => Ok(ColourChannel::Intensity),
        _ => Err(LuminateStatus::InvalidArgument),
    }
}

/// Decoding inverts encoding for encodings and channels, a code that decodes
/// is the code of what it decodes to, and exactly the codes past the last
/// value are rejected.
pub proof fn lemma_colour_codes_round_trip(encoding: ColourEncoding, channel: ColourChannel, value: u32)
    ensures
        encoding_outcome(encoding_code(encoding)) == Ok::<ColourEncoding, LuminateStatus>(encoding),
        channel_outcome(channel_code(channel)) == Ok::<ColourChannel, LuminateStatus>(channel),
        encoding_outcome(value) matches Ok(e) ==> encoding_code(e) == value,
        channel_outcome(value) matches Ok(c) ==> channel_code(c) == value,
        encoding_outcome(value) is Err <==> value > 4,
        channel_outcome(value) is Err <==> value > 13,
{
}

/// The C colour-channel codes are fixed: red 0, green 1, blue 2, white 3,
/// warm white 4, cool white 5, amber 6, ultraviolet 7, hue 8, saturation 9,
/// value 10, lightness 11, temperature 12, intensity 13; each code decodes
/// to its channel and every larger code is rejected.
pub proof fn lemma_channel_code_table(value: u32)
    ensures
        channel_code(ColourChannel::Red) == 0,
        channel_code(ColourChannel::Green) == 1,
        channel_code(ColourChannel::Blue) == 2,
        channel_code(ColourChannel::White) == 3,
        channel_code(ColourChannel::WarmWhite) == 4,
        channel_code(ColourChannel::CoolWhite) == 5,
        channel_code(ColourChannel::Amber) == 6,
        channel_code(ColourChannel::Ultraviolet) == 7,
        channel_code(ColourChannel::Hue) == 8,
        channel_code(ColourChannel::Saturation) == 9,
        channel_code(ColourChannel::Value) == 10,
        channel_code(ColourChannel::Lightness) == 11,
        channel_code(ColourChannel::Temperature) == 12,
        channel_code(ColourChannel::Intensity) == 13,
        channel_outcome(0) == Ok::<ColourChannel, LuminateStatus>(ColourChannel::Red),
        channel_outcome(1) == Ok::<ColourChannel, LuminateStatus>(ColourChannel::Green),
        channel_outcome(2) == Ok::<ColourChannel, LuminateStatus>(ColourChannel::Blue),
        channel_outcome(3) == Ok::<ColourChannel, LuminateStatus>(ColourChannel::White),
        channel_outcome(4) == Ok::<ColourChannel, LuminateStatus>(ColourChannel::WarmWhite),
        channel_outcome(5) == Ok::<ColourChannel, LuminateStatus>(ColourChannel::CoolWhite),
        channel_outcome(6) == Ok::<ColourChannel, LuminateStatus>(ColourChannel::Amber),
        channel_outcome(7) == Ok::<ColourChannel, LuminateStatus>(ColourChannel::Ultraviolet),
        channel_outcome(8) == Ok::<ColourChannel, LuminateStatus>(ColourChannel::Hue),
        channel_outcome(9) == Ok::<ColourChannel, LuminateStatus>(ColourChannel::Saturation),
        channel_outcome(10) == Ok::<ColourChannel, LuminateStatus>(ColourChannel::Value),
        channel_outcome(11) == Ok::<ColourChannel, LuminateStatus>(ColourChannel::Lightness),
        channel_outcome(12) == Ok::<ColourChannel, LuminateStatus>(ColourChannel::Temperature),
        channel_outcome(13) == Ok::<ColourChannel, LuminateStatus>(ColourChannel::Intensity),
        value > 13 ==> channel_outcome(value) == Err::<ColourChannel, LuminateStatus>(LuminateStatus::InvalidArgument),
{
}

/// The C colour-encoding codes are fixed: additive 0, HSV 1, HSL 2, CCT 3,
/// monochrome 4; each code decodes to its encoding and every larger code is
/// rejected.
pub proof fn lemma_encoding_code_table(value: u32)
    ensures
        encoding_code(ColourEncoding::Additive) == 0,
        encoding_code(ColourEncoding::Hsv) == 1,
        encoding_code(ColourEncoding::Hsl) == 2,
        encoding_code(ColourEncoding::Cct) == 3,
        encoding_code(ColourEncoding::Monochrome) == 4,
        encoding_outcome(0) == Ok::<ColourEncoding, LuminateStatus>(ColourEncoding::Additive),
        encoding_outcome(1) == Ok::<ColourEncoding, LuminateStatus>(ColourEncoding::Hsv),
        encoding_outcome(2) == Ok::<ColourEncoding, LuminateStatus>(ColourEncoding::Hsl),
        encoding_outcome(3) == Ok::<ColourEncoding, LuminateStatus>(ColourEncoding::Cct),
        encoding_outcome(4) == Ok::<ColourEncoding, LuminateStatus>(ColourEncoding::Monochrome),
        value > 4 ==> encoding_outcome(value) == Err::<ColourEncoding, LuminateStatus>(LuminateStatus::InvalidArgument),
{
}

/// Decoding of channel/value pairs in order; the first unknown channel code
/// is rejected.
pub open spec fn channels_outcome(items: Seq<LuminateColourChannelInput>) -> Result<Seq<ColourChannelValue>, LuminateStatus>
    decreases items.len(),
{
    if items.len() == 0 {
        Ok(Seq::empty())
    } else {
        match channels_outcome(items.drop_last()) {
            Err(status) => Err(status),
            Ok(prefix) => match channel_outcome(items.last().channel) {
                Err(status) => Err(status),
                Ok(channel) => Ok(prefix.push(ColourChannelValue { channel, value: items.last().value })),
            },
        }
    }
}

/// Decoding of the counted channel array: a zero count never reads the
/// array; a null array with a non-zero count is `NullPointer`.
pub open spec fn channel_list_outcome<'a>(input: LuminateColourInput<'a>) -> Result<Seq<ColourChannelValue>, LuminateStatus> {
    if input.channel_count == 0 {
        Ok(Seq::empty())
    } else {
        match input.channels {
            None => Err(LuminateStatus::NullPointer),
            Some(items) => channels_outcome(items@),
        }
    }
}

/// The value of the first channel equal to `wanted`, if any.
pub open spec fn component(channels: Seq<ColourChannelValue>, wanted: ColourChannel) -> Option<u32>
    decreases channels.len(),
{
    if channels.len() == 0 {
        None
    } else if channels[0].channel == wanted {
        Some(channels[0].value)
    } else {
        component(channels.drop_first(), wanted)
    }
}

/// The colour an encoding and decoded channels denote. Additive colours keep
/// their channels as given: no rule on which additive channels may appear,
/// or how often, is applied to them, so every decoded additive list is
/// accepted. `luminate_core` checks additive colours with a rule of its own
/// that can fail; its source is not available here, so that rule is not
/// applied. The other encodings read their components, and a missing
/// component is `InvalidArgument`.
pub open spec fn colour_from(encoding: ColourEncoding, channels: Seq<ColourChannelValue>) -> Result<ColourView, LuminateStatus> {
    match encoding {
        ColourEncoding::Additive => Ok(ColourView::Additive(channels)),
        ColourEncoding::Hsv => match (
            component(channels, ColourChannel::Hue),
            component(channels, ColourChannel::Saturation),
            component(channels, ColourChannel::Value),
        ) {
            (Some(hue), Some(saturation), Some(value)) => Ok(ColourView::Hsv { hue, saturation, value }),
            _ => Err(LuminateStatus::InvalidArgument),
        },
        ColourEncoding::Hsl => match (
            component(channels, ColourChannel::Hue),
            component(channels, ColourChannel::Saturation),
            component(channels, ColourChannel::Lightness),
        ) {
            (Some(hue), Some(saturation), Some(lightness)) => Ok(ColourView::Hsl { hue, saturation, lightness }),
            _ => Err(LuminateStatus::InvalidArgument),
        },
        ColourEncoding::Cct => match component(channels, ColourChannel::Temperature) {
            Some(kelvin) => Ok(ColourView::Cct(kelvin)),
            None => Err(LuminateStatus::InvalidArgument),
        },
        ColourEncoding::Monochrome => match component(channels, ColourChannel::Intensity) {
            Some(intensity) => Ok(ColourView::Monochrome(intensity)),
            None => Err(LuminateStatus::InvalidArgument),
        },
    }
}

/// The value of the first channel equal to `wanted`.
fn find_component(channels: &Vec<ColourChannelValue>, wanted: ColourChannel) -> (found: Option<u32>)
    ensures
        found == component(channels@, wanted),
{
    let mut i: usize = 0;
    assert(channels@.subrange(0, channels@.len() as int) =~= channels@);
    while i < channels.len()
        invariant
            0 <= i <= channels@.len(),
            component(channels@, wanted) == component(channels@.subrange(i as int, channels@.len() as int), wanted),
        decreases channels@.len() - i,
    {
        let ghost rest = channels@.subrange(i as int, channels@.len() as int);
        assert(rest.drop_first() =~= channels@.subrange(i + 1, channels@.len() as int));
        if channels[i].channel == wanted {
            return Some(channels[i].value);
        }
        i = i + 1;
    }
    None
}

/// Decoding of a caller-owned colour: the encoding first, then the channel
/// list, then the encoding's components.
pub open spec fn colour_outcome<'a>(input: LuminateColourInput<'a>) -> Result<ColourView, LuminateStatus> {
    match encoding_outcome(input.encoding) {
        Err(status) => Err(status),
        Ok(encoding) => match channel_list_outcome(input) {
            Err(status) => Err(status),
            Ok(channels) => colour_from(encoding, channels),
        },
    }
}

/// Decoding a colour never fails with the success status.
pub proof fn lemma_colour_failures_are_failures<'a>(input: LuminateColourInput<'a>)
    ensures
        colour_outcome(input) matches Err(s) ==> s != LuminateStatus::Success,
{
    if let Some(items) = input.channels {
        lemma_channel_failures(items@);
    }
}

proof fn lemma_channel_failures(items: Seq<LuminateColourChannelInput>)
    ensures
        channels_outcome(items) matches Err(s) ==> s != LuminateStatus::Success,
    decreases items.len(),
{
    if items.len() > 0 {
        lemma_channel_failures(items.drop_last());
    }
}

proof fn lemma_channels_error_persists(items: Seq<LuminateColourChannelInput>, k: int, status: LuminateStatus)
    requires
        0 <= k <= items.len(),
        channels_outcome(items.take(k)) == Err::<Seq<ColourChannelValue>, LuminateStatus>(status),
    ensures
        channels_outcome(items) == Err::<Seq<ColourChannelValue>, LuminateStatus>(status),
    decreases items.len() - k,
{
    if k < items.len() {
        assert(items.take(k + 1).drop_last() =~= items.take(k));
        lemma_channels_error_persists(items, k + 1, status);
    } else {
        assert(items.take(k) =~= items);
    }
}

/// The message a failed colour decoding records: an unknown encoding, a
/// null channel array, an unknown channel, or a missing component.
pub open spec fn colour_message<'a>(input: LuminateColourInput<'a>) -> Seq<char> {
    if encoding_outcome(input.encoding) is Err {
        encoding_message()
    } else if input.channel_count != 0 && input.channels is None {
        "colour channels pointer is null"@
    } else if channel_list_outcome(input) is Err {
        channel_message()
    } else {
        "colour input is missing a required channel"@
    }
}

/// Decodes a caller-owned colour; a failure records its message. An
/// additive colour is accepted with whatever decoded channels it has (see
/// `colour_from`).
pub fn read_colour(input: &LuminateColourInput, diagnostics: &mut Diagnostics) -> (result: Result<Colour, LuminateStatus>)
    requires
        input.wf(),
    ensures
        match result {
            Ok(colour) => colour_outcome(*input) == Ok::<ColourView, LuminateStatus>(colour.view())
                && *final(diagnostics) == *old(diagnostics),
            Err(status) => colour_outcome(*input) == Err::<ColourView, LuminateStatus>(status)
                && holds_message(*final(diagnostics), colour_message(*input)),
        },
{
    let encoding = colour_encoding(input.encoding, diagnostics)?;
    let mut channels: Vec<ColourChannelValue> = Vec::new();
    if input.channel_count != 0 {
        let items = match input.channels {
            None => {
                diagnostics.record_message("colour channels pointer is null");
                return Err(LuminateStatus::NullPointer);
            },
            Some(items) => items,
        };
        let mut i: usize = 0;
        assert(items@.take(0) =~= Seq::<LuminateColourChannelInput>::empty());
        while i < items.len()
            invariant
                0 <= i <= items@.len(),
                channels_outcome(items@.take(i as int)) == Ok::<Seq<ColourChannelValue>, LuminateStatus>(channels@),
                input.channels == Some(items),
                input.channel_count != 0,
                encoding_outcome(input.encoding) == Ok::<ColourEncoding, LuminateStatus>(encoding),
                *diagnostics == *old(diagnostics),
            decreases items@.len() - i,
        {
            assert(items@.take(i + 1).drop_last() =~= items@.take(i as int));
            assert(items@.take(i + 1).last() == items@[i as int]);
            let entry = items[i];
            let channel = match colour_channel(entry.channel, diagnostics) {
                Ok(channel) => channel,
                Err(status) => {
                    proof { lemma_channels_error_persists(items@, i + 1, status); }
                    return Err(status);
                },
            };
            channels.push(ColourChannelValue { channel, value: entry.value });
            i = i + 1;
        }
        assert(items@.take(items@.len() as int) =~= items@);
    } else {
        assert(channels@ =~= Seq::<ColourChannelValue>::empty());
    }
    let colour = match encoding {
        ColourEncoding::Additive => Some(Colour::Additive(channels)),
        ColourEncoding::Hsv => {
            let hue = find_component(&channels, ColourChannel::Hue);
            let saturation = find_component(&channels, ColourChannel::Saturation);
            let value = find_component(&channels, ColourChannel::Value);
            match (hue, saturation, value) {
                (Some(hue), Some(saturation), Some(value)) => Some(Colour::Hsv { hue, saturation, value }),
                _ => None,
            }
        },
        ColourEncoding::Hsl => {
            let hue = find_component(&channels, ColourChannel::Hue);
            let saturation = find_component(&channels, ColourChannel::Saturation);
            let lightness = find_component(&channels, ColourChannel::Lightness);
            match (hue, saturation, lightness) {
                (Some(hue), Some(saturation), Some(lightness)) => Some(Colour::Hsl { hue, saturation, lightness }),
                _ => None,
            }
        },
        ColourEncoding::Cct => match find_component(&channels, ColourChannel::Temperature) {
            Some(kelvin) => Some(Colour::Cct(kelvin)),
            None => None,
        },
        ColourEncoding::Monochrome => match find_component(&channels, ColourChannel::Intensity) {
            Some(intensity) => Some(Colour::Monochrome(intensity)),
            None => None,
        },
    };
    match colour {
        Some(colour) => Ok(colour),
        None => {
            diagnostics.record_message("colour input is missing a required channel");
            Err(LuminateStatus::InvalidArgument)
        },
    }
}

/// The caller entries of a colour input that decoding reads: none for a zero
/// count, otherwise the counted array.
pub open spec fn channel_entries<'a>(input: LuminateColourInput<'a>) -> Seq<LuminateColourChannelInput> {
    if input.channel_count == 0 {
        Seq::empty()
    } else {
        match input.channels {
            Some(items) => items@,
            None => Seq::empty(),
        }
    }
}

/// The value of the first caller entry whose channel code is `code`, if any.
pub open spec fn first_entry_value(items: Seq<LuminateColourChannelInput>, code: u32) -> Option<u32>
    decreases items.len(),
{
    if items.len() == 0 {
        None
    } else if items[0].channel == code {
        Some(items[0].value)
    } else {
        first_entry_value(items.drop_first(), code)
    }
}

/// Whether an encoding reads `channel` as one of its components.
pub open spec fn required_channel(encoding: ColourEncoding, channel: ColourChannel) -> bool {
    match encoding {
        ColourEncoding::Additive => false,
        ColourEncoding::Hsv => channel == ColourChannel::Hue || channel == ColourChannel::Saturation
            || channel == ColourChannel::Value,
        ColourEncoding::Hsl => channel == ColourChannel::Hue || channel == ColourChannel::Saturation
            || channel == ColourChannel::Lightness,
        ColourEncoding::Cct => channel == ColourChannel::Temperature,
        ColourEncoding::Monochrome => channel == ColourChannel::Intensity,
    }
}

/// Decoded channels keep the caller's order and values, each channel being
/// the one its code names.
proof fn lemma_channels_pointwise(items: Seq<LuminateColourChannelInput>)
    requires
        channels_outcome(items) is Ok,
    ensures
        channels_outcome(items)->Ok_0.len() == items.len(),
        forall|i: int| 0 <= i < items.len() ==> {
            let c = #[trigger] channels_outcome(items)->Ok_0[i];
            c.value == items[i].value && channel_code(c.channel) == items[i].channel
        },
    decreases items.len(),
{
    if items.len() > 0 {
        lemma_channels_pointwise(items.drop_last());
        let ch = channel_outcome(items.last().channel)->Ok_0;
        lemma_colour_codes_round_trip(ColourEncoding::Additive, ch, items.last().channel);
    }
}

/// The first decoded value of a channel is the first caller value with its
/// code.
proof fn lemma_component_first_entry(items: Seq<LuminateColourChannelInput>, channels: Seq<ColourChannelValue>, wanted: ColourChannel)
    requires
        channels.len() == items.len(),
        forall|i: int| 0 <= i < items.len() ==> (#[trigger] channels[i]).value == items[i].value
            && channel_code(channels[i].channel) == items[i].channel,
    ensures
        component(channels, wanted) == first_entry_value(items, channel_code(wanted)),
    decreases items.len(),
{
    if items.len() > 0 {
        lemma_colour_codes_round_trip(ColourEncoding::Additive, channels[0].channel, 0);
        lemma_colour_codes_round_trip(ColourEncoding::Additive, wanted, 0);
        assert(channel_outcome(channel_code(channels[0].channel)) == Ok::<ColourChannel, LuminateStatus>(channels[0].channel));
        assert(channel_outcome(channel_code(wanted)) == Ok::<ColourChannel, LuminateStatus>(wanted));
        let rest_items = items.drop_first();
        let rest = channels.drop_first();
        assert forall|i: int| 0 <= i < rest_items.len() implies (#[trigger] rest[i]).value == rest_items[i].value
            && channel_code(rest[i].channel) == rest_items[i].channel by {
            assert(rest[i] == channels[i + 1]);
        }
        lemma_component_first_entry(rest_items, rest, wanted);
    }
}

/// For the encodings that read components (HSV, HSL, CCT, monochrome), only
/// the first caller value of each channel the encoding requires decides the
/// colour: two inputs with the same encoding whose channel entries all
/// decode, and whose first entries for each required channel carry the same
/// value, decode alike, whatever their order and whatever other entries
/// they hold.
pub proof fn lemma_first_required_values_decide(a: LuminateColourInput, b: LuminateColourInput)
    requires
        a.encoding == b.encoding,
        encoding_outcome(a.encoding) matches Ok(e) && e != ColourEncoding::Additive,
        channel_list_outcome(a) is Ok,
        channel_list_outcome(b) is Ok,
        forall|ch: ColourChannel| #[trigger] required_channel(encoding_outcome(a.encoding)->Ok_0, ch)
            ==> first_entry_value(channel_entries(a), channel_code(ch)) == first_entry_value(channel_entries(b), channel_code(ch)),
    ensures
        colour_outcome(a) == colour_outcome(b),
{
    let e = encoding_outcome(a.encoding)->Ok_0;
    let ca = channel_list_outcome(a)->Ok_0;
    let cb = channel_list_outcome(b)->Ok_0;
    assert forall|ch: ColourChannel| required_channel(e, ch) implies #[trigger] component(ca, ch) == component(cb, ch) by {
        if a.channel_count == 0 {
            assert(ca =~= Seq::<ColourChannelValue>::empty());
        } else {
            lemma_channels_pointwise(channel_entries(a));
        }
        if b.channel_count == 0 {
            assert(cb =~= Seq::<ColourChannelValue>::empty());
        } else {
            lemma_channels_pointwise(channel_entries(b));
        }
        lemma_component_first_entry(channel_entries(a), ca, ch);
        lemma_component_first_entry(channel_entries(b), cb, ch);
    }
    assert(required_channel(e, ColourChannel::Hue) ==> component(ca, ColourChannel::Hue) == component(cb, ColourChannel::Hue));
    assert(required_channel(e, ColourChannel::Saturation) ==> component(ca, ColourChannel::Saturation) == component(cb, ColourChannel::Saturation));
    assert(required_channel(e, ColourChannel::Value) ==> component(ca, ColourChannel::Value) == component(cb, ColourChannel::Value));
    assert(required_channel(e, ColourChannel::Lightness) ==> component(ca, ColourChannel::Lightness) == component(cb, ColourChannel::Lightness));
    assert(required_channel(e, ColourChannel::Temperature) ==> component(ca, ColourChannel::Temperature) == component(cb, ColourChannel::Temperature));
    assert(required_channel(e, ColourChannel::Intensity) ==> component(ca, ColourChannel::Intensity) == component(cb, ColourChannel::Intensity));
}

/// Each component of a decoded colour is the first value the caller gave
/// under that component's channel code: an HSV colour (encoding 1) has the
/// first values for hue 8, saturation 9 and value 10; an HSL colour
/// (encoding 2) those for hue 8, saturation 9 and lightness 11; a CCT colour
/// (encoding 3) that for temperature 12; a monochrome colour (encoding 4)
/// that for intensity 13. An additive colour (encoding 0) keeps every caller
/// entry, in order, with its value and the channel its code names.
pub proof fn lemma_components_from_their_codes(input: LuminateColourInput)
    ensures
        colour_outcome(input) matches Ok(c) ==> match c {
            ColourView::Hsv { hue, saturation, value } => {
                &&& input.encoding == 1
                &&& first_entry_value(channel_entries(input), 8) == Some(hue)
                &&& first_entry_value(channel_entries(input), 9) == Some(saturation)
                &&& first_entry_value(channel_entries(input), 10) == Some(value)
            },
            ColourView::Hsl { hue, saturation, lightness } => {
                &&& input.encoding == 2
                &&& first_entry_value(channel_entries(input), 8) == Some(hue)
                &&& first_entry_value(channel_entries(input), 9) == Some(saturation)
                &&& first_entry_value(channel_entries(input), 11) == Some(lightness)
            },
            ColourView::Cct(kelvin) => {
                &&& input.encoding == 3
                &&& first_entry_value(channel_entries(input), 12) == Some(kelvin)
            },
            ColourView::Monochrome(intensity) => {
                &&& input.encoding == 4
                &&& first_entry_value(channel_entries(input), 13) == Some(intensity)
            },
            ColourView::Additive(channels) => {
                &&& input.encoding == 0
                &&& channels.len() == channel_entries(input).len()
                &&& forall|i: int| 0 <= i < channels.len() ==> {
                    &&& (#[trigger] channels[i]).value == channel_entries(input)[i].value
                    &&& channel_outcome(channel_entries(input)[i].channel) == Ok::<ColourChannel, LuminateStatus>(channels[i].channel)
                }
            },
        },
{
    if colour_outcome(input) is Ok {
        let cs = channel_list_outcome(input)->Ok_0;
        let items = channel_entries(input);
        if input.channel_count == 0 {
            assert(cs =~= Seq::<ColourChannelValue>::empty());
        } else {
            lemma_channels_pointwise(items);
        }
        assert forall|i: int| 0 <= i < cs.len() implies
            channel_outcome(items[i].channel) == Ok::<ColourChannel, LuminateStatus>((#[trigger] cs[i]).channel) by {
            lemma_colour_codes_round_trip(ColourEncoding::Additive, cs[i].channel, 0);
        }
        lemma_component_first_entry(items, cs, ColourChannel::Hue);
        lemma_component_first_entry(items, cs, ColourChannel::Saturation);
        lemma_component_first_entry(items, cs, ColourChannel::Value);
        lemma_component_first_entry(items, cs, ColourChannel::Lightness);
        lemma_component_first_entry(items, cs, ColourChannel::Temperature);
        lemma_component_first_entry(items, cs, ColourChannel::Intensity);
    }
}

/// The bit depth a device offers for one additive channel.
#[derive(Debug, Clone, Copy, PartialEq, Eq, Structural)]
pub struct LuminateColourChannelCapability {
    pub channel: ColourChannel,
    pub bits: u8,
}

pub type ColourChannelCapability = LuminateColourChannelCapability;

/// What colour encoding a device accepts, with the bit depth of each
/// channel.
#[derive(Debug, PartialEq)]
pub enum LuminateColourCapability {
    Additive(Vec<ColourChannelCapability>),
    Hsv { hue_bits: u8, saturation_bits: u8, value_bits: u8 },
    Hsl { hue_bits: u8, saturation_bits: u8, lightness_bits: u8 },
    Cct { bits: u8 },
    Monochrome { bits: u8 },
}

pub type ColourCapability = LuminateColourCapability;

/// A colour capability reports the code of its encoding: additive 0, HSV 1,
/// HSL 2, CCT 3, monochrome 4.
pub proof fn lemma_capability_encoding_code_table(capability: ColourCapability)
    ensures
        capability is Additive ==> capability_encoding_code(capability) == 0,
        capability is Hsv ==> capability_encoding_code(capability) == 1,
        capability is Hsl ==> capability_encoding_code(capability) == 2,
        capability is Cct ==> capability_encoding_code(capability) == 3,
        capability is Monochrome ==> capability_encoding_code(capability) == 4,
{
}

/// The code of the encoding a capability accepts.
pub open spec fn capability_encoding_code(capability: ColourCapability) -> u32 {
    match capability {
        ColourCapability::Additive(_) => 0,
        ColourCapability::Hsv { .. } => 1,
        ColourCapability::Hsl { .. } => 2,
        ColourCapability::Cct { .. } => 3,
        ColourCapability::Monochrome { .. } => 4,
    }
}

/// The bit depth of the first additive channel equal to `wanted`.
pub open spec fn additive_bits(channels: Seq<ColourChannelCapability>, wanted: ColourChannel) -> Option<u8>
    decreases channels.len(),
{
    if channels.len() == 0 {
        None
    } else if channels[0].channel == wanted {
        Some(channels[0].bits)
    } else {
        additive_bits(channels.drop_first(), wanted)
    }
}

/// The bit depth a capability offers for a channel, if it offers the channel.
pub open spec fn capability_bits(capability: ColourCapability, channel: ColourChannel) -> Option<u8> {
    match capability {
        ColourCapability::Additive(channels) => additive_bits(channels@, channel),
        ColourCapability::Hsv { hue_bits, saturation_bits, value_bits } => match channel {
            ColourChannel::Hue => Some(hue_bits),
            ColourChannel::Saturation => Some(saturation_bits),
            ColourChannel::Value => Some(value_bits),
            _ => None,
        },
        ColourCapability::Hsl { hue_bits, saturation_bits, lightness_bits } => match channel {
            ColourChannel::Hue => Some(hue_bits),
            ColourChannel::Saturation => Some(saturation_bits),
            ColourChannel::Lightness => Some(lightness_bits),
            _ => None,
        },
        ColourCapability::Cct { bits } => if channel == ColourChannel::Temperature { Some(bits) } else { None },
        ColourCapability::Monochrome { bits } => if channel == ColourChannel::Intensity { Some(bits) } else { None },
    }
}

/// The bit depth looked up for a channel code: absent for a null
/// capability, an unknown code, or a channel the capability lacks.
pub open spec fn bits_lookup(capability: Option<ColourCapability>, channel: u32) -> Option<u8> {
    match capability {
        None => None,
        Some(c) => match channel_outcome(channel) {
            Ok(ch) => capability_bits(c, ch),
            Err(_) => None,
        },
    }
}

/// The view of an optional borrowed capability.
pub open spec fn opt_capability(value: Option<&LuminateColourCapability>) -> Option<ColourCapability> {
    match value {
        Some(c) => Some(*c),
        None => None,
    }
}

fn find_bits(channels: &Vec<ColourChannelCapability>, wanted: ColourChannel) -> (found: Option<u8>)
    ensures
        found == additive_bits(channels@, wanted),
{
    let mut i: usize = 0;
    assert(channels@.subrange(0, channels@.len() as int) =~= channels@);
    while i < channels.len()
        invariant
            0 <= i <= channels@.len(),
            additive_bits(channels@, wanted) == additive_bits(channels@.subrange(i as int, channels@.len() as int), wanted),
        decreases channels@.len() - i,
    {
        let ghost rest = channels@.subrange(i as int, channels@.len() as int);
        assert(rest.drop_first() =~= channels@.subrange(i + 1, channels@.len() as int));
        if channels[i].channel == wanted {
            return Some(channels[i].bits);
        }
        i = i + 1;
    }
    None
}

/// Looks up a channel's bit depth by channel code and writes it through
/// `out_bits`; returns false, writing nothing, for a null capability, an
/// unknown or absent channel, or a null output.
/// An unknown channel code for a present capability records its message.
pub fn luminate_colour_capability_bits(
    v: Option<&LuminateColourCapability>,
    channel: u32,
    out_bits: Option<&mut u8>,
    diagnostics: &mut Diagnostics,
) -> (written: bool)
    ensures
        written == (bits_lookup(opt_capability(v), channel) is Some && out_bits is Some),
        if v is Some && channel_outcome(channel) is Err {
            holds_message(*final(diagnostics), channel_message())
        } else {
            *final(diagnostics) == *old(diagnostics)
        },
        out_bits matches Some(o) ==> (if written {
            *final(o) == bits_lookup(opt_capability(v), channel)->0
        } else {
            *final(o) == *o
        }),
{
    let capability = match v {
        None => return false,
        Some(c) => c,
    };
    let wanted = match colour_channel(channel, diagnostics) {
        Ok(ch) => ch,
        Err(_) => return false,
    };
    let bits = match capability {
        ColourCapability::Additive(channels) => find_bits(channels, wanted),
        ColourCapability::Hsv { hue_bits, saturation_bits, value_bits } => match wanted {
            ColourChannel::Hue => Some(*hue_bits),
            ColourChannel::Saturation => Some(*saturation_bits),
            ColourChannel::Value => Some(*value_bits),
            _ => None,
        },
        ColourCapability::Hsl { hue_bits, saturation_bits, lightness_bits } => match wanted {
            ColourChannel::Hue => Some(*hue_bits),
            ColourChannel::Saturation => Some(*saturation_bits),
            ColourChannel::Lightness => Some(*lightness_bits),
            _ => None,
        },
        ColourCapability::Cct { bits } => if wanted == ColourChannel::Temperature { Some(*bits) } else { None },
        ColourCapability::Monochrome { bits } => if wanted == ColourChannel::Intensity { Some(*bits) } else { None },
    };
    let b = match bits {
        None => return false,
        Some(b) => b,
    };
    match out_bits {
        None => false,
        Some(o) => {
            *o = b;
            true
        },
    }
}

/// Encoding code of a colour capability, or `u32::MAX` for null.
pub fn luminate_colour_capability_encoding(v: Option<&LuminateColourCapability>) -> (code: u32)
    ensures
        code == match v { Some(c) => capability_encoding_code(*c), None => 0xffff_ffffu32 },
{
    match v {
        Some(ColourCapability::Additive(_)) => 0,
        Some(ColourCapability::Hsv { .. }) => 1,
        Some(ColourCapability::Hsl { .. }) => 2,
        Some(ColourCapability::Cct { .. }) => 3,
        Some(ColourCapability::Monochrome { .. }) => 4,
        None => 0xffff_ffff,
    }
}

/// Number of additive channels; 0 for fixed encodings and null.
pub fn luminate_colour_capability_channel_count(v: Option<&LuminateColourCapability>) -> (count: usize)
    ensures
        count == match v { Some(ColourCapability::Additive(channels)) => channels@.len(), _ => 0 },
{
    match v {
        Some(ColourCapability::Additive(channels)) => channels.len(),
        _ => 0,
    }
}

/// Borrowed additive channel capability at `index`.
pub fn luminate_colour_capability_channel_at(v: Option<&LuminateColourCapability>, index: usize) -> (channel: Option<&LuminateColourChannelCapability>)
    ensures
        match v {
            Some(ColourCapability::Additive(channels)) => if index < channels@.len() {
                channel == Some(&channels@[index as int])
            } else {
                channel is None
            },
            _ => channel is None,
        },
{
    match v {
        Some(ColourCapability::Additive(channels)) => if index < channels.len() { Some(&channels[index]) } else { None },
        _ => None,
    }
}

/// Channel code of a channel capability, or `u32::MAX` for null.
pub fn luminate_colour_channel_capability_channel(v: Option<&LuminateColourChannelCapability>) -> (code: u32)
    ensures
        code == match v { Some(c) => channel_code(c.channel), None => 0xffff_ffffu32 },
{
    match v {
        Some(c) => channel_to_u32(c.channel),
        None => 0xffff_ffff,
    }
}

/// Bit depth of a channel capability, or 0 for null.
pub fn luminate_colour_channel_capability_bits(v: Option<&LuminateColourChannelCapability>) -> (bits: u8)
    ensures
        bits == match v { Some(c) => c.bits, None => 0 },
{
    match v {
        Some(c) => c.bits,
        None => 0,
    }
}

/// Encodes a channel as its C code.
pub fn channel_to_u32(channel: ColourChannel) -> (code: u32)
    ensures
        code == channel_code(channel),
{
    match channel {
        ColourChannel::Red => 0,
        ColourChannel::Green => 1,
        ColourChannel::Blue => 2,
        ColourChannel::White => 3,
        ColourChannel::WarmWhite => 4,
        ColourChannel::CoolWhite => 5,
        ColourChannel::Amber => 6,
        ColourChannel::Ultraviolet => 7,
        ColourChannel::Hue => 8,
        ColourChannel::Saturation => 9,
        ColourChannel::Value => 10,
        ColourChannel::Lightness => 11,
        ColourChannel::Temperature => 12,
        ColourChannel::Intensity => 13,
    }
}

/// An 8-bit-per-channel RGB colour.
#[derive(Debug, Clone, Copy, PartialEq, Eq, Structural)]
pub struct LuminateRgb {
    pub r: u8,
    pub g: u8,
    pub b: u8,
}

pub type Rgb = LuminateRgb;

impl Colour {
    /// An independent copy of the colour.
    pub fn duplicate(&self) -> (copy: Colour)
        ensures
            copy.view() == self.view(),
    {
        match self {
            Colour::Additive(channels) => {
                let mut copies: Vec<ColourChannelValue> = Vec::new();
                let mut i: usize = 0;
                while i < channels.len()
                    invariant
                        0 <= i <= channels@.len(),
                        copies@ == channels@.take(i as int),
                    decreases channels@.len() - i,
                {
                    copies.push(channels[i]);
                    assert(copies@ =~= channels@.take(i + 1));
                    i = i + 1;
                }
                assert(channels@.take(i as int) =~= channels@);
                Colour::Additive(copies)
            },
            Colour::Hsv { hue, saturation, value } => Colour::Hsv { hue: *hue, saturation: *saturation, value: *value },
            Colour::Hsl { hue, saturation, lightness } => Colour::Hsl { hue: *hue, saturation: *saturation, lightness: *lightness },
            Colour::Cct(kelvin) => Colour::Cct(*kelvin),
            Colour::Monochrome(intensity) => Colour::Monochrome(*intensity),
        }
    }
}

/// Copies `count` caller-owned RGB colours; a zero count never reads the
/// array, and a null array with a non-zero count is `NullPointer`.
pub fn read_rgb_array(colours: Option<&[LuminateRgb]>, count: usize) -> (result: Result<Vec<Rgb>, LuminateStatus>)
    requires
        colours matches Some(items) ==> items@.len() == count,
    ensures
        match result {
            Ok(values) => if count == 0 { values@.len() == 0 } else { colours matches Some(items) && values@ == items@ },
            Err(status) => status == LuminateStatus::NullPointer && count != 0 && colours is None,
        },
{
    let mut values: Vec<Rgb> = Vec::new();
    if count == 0 {
        return Ok(values);
    }
    let items = match colours {
        None => return Err(LuminateStatus::NullPointer),
        Some(items) => items,
    };
    let mut i: usize = 0;
    while i < items.len()
        invariant
            0 <= i <= items@.len(),
            values@ == items@.take(i as int),
        decreases items@.len() - i,
    {
        values.push(items[i]);
        assert(values@ =~= items@.take(i + 1));
        i = i + 1;
    }
    assert(items@.take(i as int) =~= items@);
    Ok(values)
}

} // verus!
