use vstd::prelude::*;
use crate::keys::{Key, KeyCode, key_of, map_key};

verus! {

/// A mouse button as the platform reports it.
#[derive(Clone, Copy, Debug, PartialEq, Eq, Structural)]
pub enum RawButton {
    Left,
    Right,
    Middle,
    Back,
    Forward,
    Other(u16),
}

/// A mouse button of the semantic vocabulary.
#[derive(Clone, Copy, Debug, PartialEq, Eq, Structural)]
pub enum MouseButton {
    Primary,
    Secondary,
    Tertiary,
}

/// A raw window or device event, with the platform's positions and deltas
/// carried as values of type `P`.
#[derive(Clone, Copy, Debug, PartialEq)]
pub enum RawEvent<P> {
    /// Relative motion of the pointing device.
    MouseMotion { delta: P },
    CloseRequested,
    /// The cursor moved to an absolute position in the window.
    CursorMoved { position: P },
    MouseInput { button: RawButton, pressed: bool },
    CursorLeft,
    /// A scroll measured in lines.
    LineScroll { delta: P },
    /// A physical key changed state. `code` is `None` for a key that the
    /// platform could not identify; `text` is the first character that the
    /// keystroke produced, if any.
    Keyboard { code: Option<KeyCode>, pressed: bool, text: Option<char> },
    /// Any event that the translator does not look at.
    Other,
}

/// A normalized input event. `PointerMoved` carries the new position and the
/// position it moved from: its delta is `pos - from`.
#[derive(Clone, Copy, Debug, PartialEq)]
pub enum HardwareEvent<P> {
    RawMouseDelta(P),
    CloseWindow,
    PointerMoved { pos: P, from: P },
    PointerClicked { pos: P, button: MouseButton, pressed: bool },
    PointerGone,
    Scroll { pos: P, delta: P },
    Key { key: Key, pressed: bool },
    Char(char),
}

/// What the window's cursor must do after a change of capture mode.
#[derive(Clone, Copy, Debug, PartialEq)]
pub enum CursorCommand<P> {
    /// Hide the cursor and confine it to the window.
    Capture,
    /// Release the confinement, show the cursor and move it to `warp_to`.
    Release { warp_to: P },
}

/// The abstract state of an [`Input`]: the capture flag, the last known
/// absolute pointer position and the events queued in the current frame.
pub struct InputView<P> {
    pub capture: bool,
    pub pointer: P,
    pub queue: Seq<HardwareEvent<P>>,
}

pub open spec fn button_of(b: RawButton) -> MouseButton {
    match b {
        RawButton::Left => MouseButton::Primary,
        RawButton::Right => MouseButton::Secondary,
        _ => MouseButton::Tertiary,
    }
}

/// The key event of a keystroke: one when the key is in the table, none otherwise.
pub open spec fn key_part<P>(code: KeyCode, pressed: bool) -> Seq<HardwareEvent<P>> {
    match key_of(code) {
        Some(key) => seq![HardwareEvent::Key { key, pressed }],
        None => Seq::empty(),
    }
}

/// The character event of a keystroke: one when text came with it.
pub open spec fn text_part<P>(text: Option<char>) -> Seq<HardwareEvent<P>> {
    match text {
        Some(ch) => seq![HardwareEvent::Char(ch)],
        None => Seq::empty(),
    }
}

/// The semantic events of one keystroke on an identified key: its key event,
/// then its character event.
pub open spec fn key_events<P>(code: KeyCode, pressed: bool, text: Option<char>) -> Seq<HardwareEvent<P>> {
    key_part(code, pressed) + text_part(text)
}

/// The semantic events that one raw event produces, given the capture flag and
/// the pointer position before it.
pub open spec fn translate<P>(capture: bool, pointer: P, raw: RawEvent<P>) -> Seq<HardwareEvent<P>> {
    match raw {
        RawEvent::MouseMotion { delta } => if capture {
            seq![HardwareEvent::RawMouseDelta(delta)]
        } else {
            Seq::empty()
        },
        RawEvent::CloseRequested => seq![HardwareEvent::CloseWindow],
        RawEvent::CursorMoved { position } => if capture {
            Seq::empty()
        } else {
            seq![HardwareEvent::PointerMoved { pos: position, from: pointer }]
        },
        RawEvent::MouseInput { button, pressed } => seq![
            HardwareEvent::PointerClicked { pos: pointer, button: button_of(button), pressed },
        ],
        RawEvent::CursorLeft => seq![HardwareEvent::PointerGone],
        RawEvent::LineScroll { delta } => seq![HardwareEvent::Scroll { pos: pointer, delta }],
        RawEvent::Keyboard { code, pressed, text } => match code {
            Some(c) => key_events(c, pressed, text),
            None => text_part(text),
        },
        RawEvent::Other => Seq::empty(),
    }
}

/// The pointer position after a raw event: absolute cursor moves are taken
/// outside capture mode only.
pub open spec fn pointer_after<P>(capture: bool, pointer: P, raw: RawEvent<P>) -> P {
    match raw {
        RawEvent::CursorMoved { position } => if capture {
            pointer
        } else {
            position
        },
        _ => pointer,
    }
}

/// The input state after one raw event.
pub open spec fn step<P>(v: InputView<P>, raw: RawEvent<P>) -> InputView<P> {
    InputView {
        capture: v.capture,
        pointer: pointer_after(v.capture, v.pointer, raw),
        queue: v.queue + translate(v.capture, v.pointer, raw),
    }
}

/// The input state after a sequence of raw events, in order.
pub open spec fn feed<P>(v: InputView<P>, raws: Seq<RawEvent<P>>) -> InputView<P>
    decreases raws.len(),
{
    if raws.len() == 0 {
        v
    } else {
        feed(step(v, raws[0]), raws.drop_first())
    }
}

/// The input state with its queue emptied.
pub open spec fn cleared<P>(v: InputView<P>) -> InputView<P> {
    InputView { queue: Seq::empty(), ..v }
}

/// The semantic events that a sequence of raw events produces, in order.
pub open spec fn emitted<P>(capture: bool, pointer: P, raws: Seq<RawEvent<P>>) -> Seq<HardwareEvent<P>>
    decreases raws.len(),
{
    if raws.len() == 0 {
        Seq::empty()
    } else {
        translate(capture, pointer, raws[0]) + emitted(
            capture,
            pointer_after(capture, pointer, raws[0]),
            raws.drop_first(),
        )
    }
}

/// The number of key events in a sequence of semantic events.
pub open spec fn count_key_events<P>(s: Seq<HardwareEvent<P>>) -> nat
    decreases s.len(),
{
    if s.len() == 0 {
        0
    } else {
        (if s[0] is Key { 1nat } else { 0nat }) + count_key_events(s.drop_first())
    }
}

/// Appends the semantic events of one keystroke on an identified key.
fn push_keystroke<P: Copy>(code: KeyCode, pressed: bool, text: Option<char>, out: &mut Vec<HardwareEvent<P>>)
    ensures
        final(out)@ == old(out)@ + key_events::<P>(code, pressed, text),
{
    let ghost before = out@;
    if let Some(key) = map_key(code) {
        out.push(HardwareEvent::Key { key, pressed });
    }
    let ghost middle = out@;
    if let Some(ch) = text {
        out.push(char_event(ch));
    }
    assert(out@ =~= before + key_events::<P>(code, pressed, text)) by {
        assert(middle =~= before + key_part::<P>(code, pressed));
    }
}

/// Appends the character event of a keystroke whose key is unidentified.
fn push_text<P: Copy>(text: Option<char>, out: &mut Vec<HardwareEvent<P>>)
    ensures
        final(out)@ == old(out)@ + text_part::<P>(text),
{
    let ghost before = out@;
    if let Some(ch) = text {
        out.push(char_event(ch));
    }
    assert(out@ =~= before + text_part::<P>(text));
}

/// The semantic event of a typed character.
fn char_event<P>(ch: char) -> (r: HardwareEvent<P>)
    ensures
        r == HardwareEvent::<P>::Char(ch),
{
    HardwareEvent::Char(ch)
}

/// Feeding raw events appends exactly what they emit, in order, and never
/// changes the capture flag.
pub proof fn lemma_feed_appends<P>(v: InputView<P>, raws: Seq<RawEvent<P>>)
    ensures
        feed(v, raws).queue == v.queue + emitted(v.capture, v.pointer, raws),
        feed(v, raws).capture == v.capture,
    decreases raws.len(),
{
    if raws.len() == 0 {
        assert(v.queue + Seq::<HardwareEvent<P>>::empty() =~= v.queue);
    } else {
        let next = step(v, raws[0]);
        lemma_feed_appends(next, raws.drop_first());
        assert(v.queue + translate(v.capture, v.pointer, raws[0]) + emitted(
            v.capture,
            next.pointer,
            raws.drop_first(),
        ) =~= v.queue + emitted(v.capture, v.pointer, raws));
    }
}

/// No events leak from one frame into the next: after the queue is cleared,
/// the events that a frame's callback sees are exactly those emitted by the raw
/// events of that frame, and clearing again leaves the queue empty for the
/// following frame.
pub proof fn lemma_frame_queue<P>(v: InputView<P>, raws: Seq<RawEvent<P>>)
    ensures
        feed(cleared(v), raws).queue == emitted(v.capture, v.pointer, raws),
        cleared(feed(cleared(v), raws)).queue.len() == 0,
{
    lemma_feed_appends(cleared(v), raws);
    assert(Seq::<HardwareEvent<P>>::empty() + emitted(v.capture, v.pointer, raws) =~= emitted(
        v.capture,
        v.pointer,
        raws,
    ));
}

/// While capture mode is on, no raw event moves the recorded pointer position.
pub proof fn lemma_capture_holds_pointer<P>(v: InputView<P>, raws: Seq<RawEvent<P>>)
    requires
        v.capture,
    ensures
        feed(v, raws).pointer == v.pointer,
        feed(v, raws).capture,
    decreases raws.len(),
{
    if raws.len() > 0 {
        lemma_capture_holds_pointer(step(v, raws[0]), raws.drop_first());
    }
}

/// Enabling capture mode, receiving any raw events (none at all included) and
/// disabling it again leaves the reported pointer position, and the position
/// the cursor is sent back to, equal to the one held when capture was enabled.
pub proof fn lemma_capture_round_trip<P>(v: InputView<P>, raws: Seq<RawEvent<P>>)
    ensures
        ({
            let during = feed(InputView { capture: true, ..v }, raws);
            let after = InputView { capture: false, ..during };
            &&& during.pointer == v.pointer
            &&& after.pointer == v.pointer
            &&& !after.capture
        }),
{
    lemma_capture_holds_pointer(InputView { capture: true, ..v }, raws);
}

/// Character input is translated independently of key input: a keystroke
/// that carries text ends with exactly that character event, whether its key
/// is identified, in the table, or neither; a keystroke on an unidentified
/// key yields its character event alone.
pub proof fn lemma_text_independent_of_key<P>(
    capture: bool,
    pointer: P,
    code: Option<KeyCode>,
    pressed: bool,
    text: Option<char>,
)
    ensures
        ({
            let out = translate(capture, pointer, RawEvent::Keyboard { code, pressed, text });
            &&& text matches Some(ch) ==> out.len() >= 1 && out[out.len() - 1] == HardwareEvent::<P>::Char(ch)
            &&& code is None ==> out == text_part::<P>(text)
            &&& code is None ==> count_key_events(out) == 0
        }),
{
    lemma_no_key_in_text::<P>(text);
    if let Some(ch) = text {
        lemma_char_last::<P>(code, pressed, ch);
    }
}

proof fn lemma_char_last<P>(code: Option<KeyCode>, pressed: bool, ch: char)
    ensures
        ({
            let out = match code {
                Some(c) => key_events::<P>(c, pressed, Some(ch)),
                None => text_part::<P>(Some(ch)),
            };
            out.len() >= 1 && out[out.len() - 1] == HardwareEvent::<P>::Char(ch)
        }),
{
    let t = text_part::<P>(Some(ch));
    assert(t.len() == 1 && t[0] == HardwareEvent::<P>::Char(ch));
    if let Some(c) = code {
        let k = key_part::<P>(c, pressed);
        assert((k + t)[(k + t).len() - 1] == t[0]);
    }
}

/// A physical transition of an identified key yields exactly one key event when
/// the key is in the table, carrying the mapped key and the transition, and no
/// key event when it is not; with no text either, it yields nothing at all.
pub proof fn lemma_one_key_event_per_transition<P>(
    capture: bool,
    pointer: P,
    code: KeyCode,
    pressed: bool,
    text: Option<char>,
)
    ensures
        ({
            let out = translate(capture, pointer, RawEvent::Keyboard { code: Some(code), pressed, text });
            &&& count_key_events(out) == (if key_of(code) is Some { 1nat } else { 0nat })
            &&& key_of(code) matches Some(key) ==> out[0] == HardwareEvent::<P>::Key { key, pressed }
            &&& key_of(code) is None && text is None ==> out.len() == 0
        }),
{
    lemma_no_key_in_text::<P>(text);
    if let Some(key) = key_of(code) {
        lemma_count_cons(HardwareEvent::<P>::Key { key, pressed }, text_part(text));
    } else {
        assert(key_part::<P>(code, pressed) + text_part(text) =~= text_part(text));
    }
}

proof fn lemma_count_cons<P>(e: HardwareEvent<P>, rest: Seq<HardwareEvent<P>>)
    ensures
        (seq![e] + rest)[0] == e,
        count_key_events(seq![e] + rest) == (if e is Key { 1nat } else { 0nat }) + count_key_events(rest),
{
    let s = seq![e] + rest;
    assert(s.drop_first() =~= rest);
}

proof fn lemma_no_key_in_text<P>(text: Option<char>)
    ensures
        count_key_events(text_part::<P>(text)) == 0,
{
    assert(count_key_events(Seq::<HardwareEvent<P>>::empty()) == 0);
    if let Some(ch) = text {
        lemma_no_key_in_char::<P>(ch);
    }
}

proof fn lemma_no_key_in_char<P>(ch: char)
    ensures
        count_key_events(text_part::<P>(Some(ch))) == 0,
{
    let s = text_part::<P>(Some(ch));
    assert(s.drop_first() =~= Seq::empty());
    assert(count_key_events(Seq::<HardwareEvent<P>>::empty()) == 0);
}

/// Translates one raw event, updates the pointer position and appends the
/// resulting semantic events to `out`.
fn convert<P: Copy>(cam_mode: bool, pointer_pos: &mut P, raw_event: RawEvent<P>, out: &mut Vec<HardwareEvent<P>>)
    ensures
        *final(pointer_pos) == pointer_after(cam_mode, *old(pointer_pos), raw_event),
        final(out)@ == old(out)@ + translate(cam_mode, *old(pointer_pos), raw_event),
{
    match raw_event {
        RawEvent::MouseMotion { delta } => {
            if cam_mode {
                out.push(HardwareEvent::RawMouseDelta(delta));
            }
        },
        RawEvent::CloseRequested => out.push(HardwareEvent::CloseWindow),
        RawEvent::CursorMoved { position } => {
            if !cam_mode {
                let from = *pointer_pos;
                *pointer_pos = position;
                out.push(HardwareEvent::PointerMoved { pos: position, from });
            }
        },
        RawEvent::MouseInput { button, pressed } => {
            let button = match button {
                RawButton::Left => MouseButton::Primary,
                RawButton::Right => MouseButton::Secondary,
                _ => MouseButton::Tertiary,
            };
            out.push(HardwareEvent::PointerClicked { pos: *pointer_pos, button, pressed });
        },
        RawEvent::CursorLeft => out.push(HardwareEvent::PointerGone),
        RawEvent::LineScroll { delta } => out.push(HardwareEvent::Scroll { pos: *pointer_pos, delta }),
        RawEvent::Keyboard { code, pressed, text } => match code {
            Some(code) => push_keystroke(code, pressed, text, out),
            None => push_text(text, out),
        },
        RawEvent::Other => {},
    }
    assert(out@ =~= old(out)@ + translate(cam_mode, *old(pointer_pos), raw_event));
}

/// The input translator: pointer position, capture mode and the semantic
/// events of the current frame.
pub struct Input<P> {
    cam_mode: bool,
    pointer_pos: P,
    events: Vec<HardwareEvent<P>>,
}

impl<P> View for Input<P> {
    type V = InputView<P>;

    closed spec fn view(&self) -> InputView<P> {
        InputView { capture: self.cam_mode, pointer: self.pointer_pos, queue: self.events@ }
    }
}

impl<P: Copy> Input<P> {
    /// A translator outside capture mode, with the pointer at `origin` and no
    /// queued events.
    pub fn new(origin: P) -> (r: Self)
        ensures
            r@ == (InputView { capture: false, pointer: origin, queue: Seq::<HardwareEvent<P>>::empty() }),
    {
        Input { cam_mode: false, pointer_pos: origin, events: Vec::new() }
    }

    /// Translates a raw event and queues what it produces.
    pub fn event(&mut self, event: RawEvent<P>)
        ensures
            final(self)@ == step(old(self)@, event),
    {
        convert(self.cam_mode, &mut self.pointer_pos, event, &mut self.events);
    }

    /// Empties the event queue; called once per frame, after the frame's
    /// callback has seen the events.
    pub fn clear(&mut self)
        ensures
            final(self)@ == cleared(old(self)@),
    {
        self.events.clear();
        assert(self.events@ =~= Seq::<HardwareEvent<P>>::empty());
    }

    /// The events queued since the last `clear`, oldest first.
    pub fn events(&self) -> (r: &[HardwareEvent<P>])
        ensures
            r@ == self@.queue,
    {
        self.events.as_slice()
    }

    /// The last known absolute pointer position.
    pub fn pointer_pos(&self) -> (r: P)
        ensures
            r == self@.pointer,
    {
        self.pointer_pos
    }

    /// Whether capture mode is active.
    pub fn cam_mode(&self) -> (r: bool)
        ensures
            r == self@.capture,
    {
        self.cam_mode
    }

    /// Enters or leaves capture mode and says what the window's cursor must do.
    /// Leaving sends the cursor back to the last absolute position, which no
    /// cursor move has changed while capture was on.
    pub fn mouse_cam_mode(&mut self, enable: bool) -> (r: CursorCommand<P>)
        ensures
            final(self)@ == (InputView { capture: enable, ..old(self)@ }),
            r == (if enable {
                CursorCommand::Capture
            } else {
                CursorCommand::Release { warp_to: old(self)@.pointer }
            }),
    {
        self.cam_mode = enable;
        if enable {
            CursorCommand::Capture
        } else {
            CursorCommand::Release { warp_to: self.pointer_pos }
        }
    }
}

} // verus!
