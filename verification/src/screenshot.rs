use vstd::prelude::*;
use vstd::std_specs::iter::IteratorSpec;

verus! {

/// Frame on which the screenshot is taken when none is configured.
pub const DEFAULT_SCREENSHOT_FRAME: u32 = 180;

/// Whether a character is an ASCII decimal digit.
pub open spec fn is_decimal_digit(c: char) -> bool {
    '0' <= c && c <= '9'
}

/// The value of a string of decimal digits.
pub open spec fn decimal_value(digits: Seq<char>) -> nat
    decreases digits.len(),
{
    if digits.len() == 0 {
        0
    } else {
        decimal_value(digits.drop_last()) * 10 + ((digits.last() as int - '0' as int) as nat)
    }
}

/// The part of a number's text after an optional leading `+`.
pub open spec fn unsigned_digits(text: Seq<char>) -> Seq<char> {
    if text.len() > 0 && text[0] == '+' {
        text.drop_first()
    } else {
        text
    }
}

/// Whether every character of a string is an ASCII decimal digit.
pub open spec fn all_decimal_digits(digits: Seq<char>) -> bool {
    forall|i: int| 0 <= i < digits.len() ==> is_decimal_digit(#[trigger] digits[i])
}

/// What `str::parse::<u32>` gives: an optional `+` followed by at least one
/// ASCII digit and nothing else, whose value fits in a `u32`; anything else
/// is refused.
pub open spec fn spec_parse_u32(text: Seq<char>) -> Option<u32> {
    let digits = unsigned_digits(text);
    if digits.len() > 0 && all_decimal_digits(digits) && decimal_value(digits) <= u32::MAX {
        Some(decimal_value(digits) as u32)
    } else {
        None
    }
}

/// A prefix of a string never has a larger decimal value than the string.
proof fn lemma_decimal_value_prefix(digits: Seq<char>, k: int)
    requires
        0 <= k <= digits.len(),
    ensures
        decimal_value(digits.take(k)) <= decimal_value(digits),
    decreases digits.len(),
{
    if k < digits.len() {
        lemma_decimal_value_prefix(digits.drop_last(), k);
        assert(digits.drop_last().take(k) =~= digits.take(k));
    } else {
        assert(digits.take(k) =~= digits);
    }
}

/// Parses a decimal `u32` as `str::parse::<u32>` does: an optional `+`
/// followed by at least one ASCII digit and nothing else, whose value fits in
/// a `u32`.
pub fn parse_u32(text: &str) -> (value: Option<u32>)
    ensures
        value == spec_parse_u32(text@),
{
    broadcast use vstd::string::axiom_spec_iter, vstd::string::next_postcondition;

    let ghost s = text@;
    let ghost digits = unsigned_digits(s);
    let mut chars = text.chars();
    let mut pending = chars.next();
    if let Some('+') = pending {
        pending = chars.next();
    }
    proof {
        if s.len() > 0 && s[0] == '+' {
            assert(s.drop_first() =~= digits.skip(0));
        }
        if digits.len() > 0 {
            assert(digits.skip(1) =~= digits.drop_first());
        }
        assert(digits.take(0) =~= Seq::<char>::empty());
    }
    let mut value: u64 = 0;
    let mut count: usize = 0;
    let ghost mut pos: int = 0;
    loop
        invariant
            s == text@,
            0 <= pos <= digits.len(),
            count as int == pos || (count == 1 && pos > 0),
            count == 0 <==> pos == 0,
            pos < digits.len() ==> pending == Some(digits[pos]) && chars.remaining()
                == digits.skip(pos + 1),
            pos == digits.len() ==> pending.is_none(),
            forall|i: int| 0 <= i < pos ==> is_decimal_digit(#[trigger] digits[i]),
            value == decimal_value(digits.take(pos)),
            value <= u32::MAX,
            digits == unsigned_digits(s),
        ensures
            s == text@,
            pos == digits.len(),
            count == 0 <==> pos == 0,
            forall|i: int| 0 <= i < pos ==> is_decimal_digit(#[trigger] digits[i]),
            value == decimal_value(digits.take(pos)),
            value <= u32::MAX,
            digits == unsigned_digits(s),
        decreases digits.len() - pos,
    {
        match pending {
            None => break,
            Some(c) => {
                if !('0' <= c && c <= '9') {
                    assert(pos < digits.len());
                    assert(!is_decimal_digit(digits[pos]));
                    assert(spec_parse_u32(text@).is_none());
                    return None;
                }
                let d = (c as u32 - '0' as u32) as u64;
                value = value * 10 + d;
                proof {
                    assert(digits.take(pos + 1).drop_last() =~= digits.take(pos));
                    assert(digits.take(pos + 1).last() == c);
                    assert(value == decimal_value(digits.take(pos + 1)));
                }
                if value > 0xffff_ffffu64 {
                    proof {
                        lemma_decimal_value_prefix(digits, pos + 1);
                        assert(decimal_value(digits) > u32::MAX);
                    }
                    assert(spec_parse_u32(text@).is_none());
                    return None;
                }
                count = 1;
                proof {
                    if pos + 1 < digits.len() {
                        assert(chars.remaining() == digits.skip(pos + 1));
                        assert(digits.skip(pos + 1).drop_first() =~= digits.skip(pos + 2));
                    } else {
                        assert(digits.skip(pos + 1).len() == 0);
                    }
                    pos = pos + 1;
                }
                pending = chars.next();
            },
        }
    }
    proof {
        assert(digits.take(pos) =~= digits);
    }
    if count == 0 {
        None
    } else {
        Some(value as u32)
    }
}

/// The frame on which to take the screenshot, from an optional setting: the
/// setting's number when it is one, else [`DEFAULT_SCREENSHOT_FRAME`].
pub fn screenshot_frame_from_setting(setting: Option<&str>) -> (frame: u32)
    ensures
        setting.is_none() ==> frame == DEFAULT_SCREENSHOT_FRAME,
        setting.is_some() ==> frame == match spec_parse_u32(setting.unwrap()@) {
            Some(v) => v,
            None => DEFAULT_SCREENSHOT_FRAME,
        },
{
    match setting {
        Some(text) => match parse_u32(text) {
            Some(v) => v,
            None => DEFAULT_SCREENSHOT_FRAME,
        },
        None => DEFAULT_SCREENSHOT_FRAME,
    }
}

/// Counts frames and says on which frame the screenshot is taken.
#[derive(Clone, Copy, PartialEq, Eq, Debug, Structural)]
pub struct ScreenshotSchedule {
    pub frame_target: u32,
    pub frame: u32,
    pub triggered: bool,
}

impl ScreenshotSchedule {
    /// The schedule after one more frame, and whether that frame takes the
    /// screenshot.
    pub open spec fn spec_tick(self) -> (ScreenshotSchedule, bool) {
        let frame = (self.frame + 1) as u32;
        let capture = !self.triggered && frame >= self.frame_target;
        (ScreenshotSchedule { frame_target: self.frame_target, frame, triggered: self.triggered || capture }, capture)
    }

    /// The schedule after `n` more frames.
    pub open spec fn spec_after(self, n: nat) -> ScreenshotSchedule
        decreases n,
    {
        if n == 0 {
            self
        } else {
            self.spec_after((n - 1) as nat).spec_tick().0
        }
    }

    /// The number of screenshots taken in the next `n` frames.
    pub open spec fn spec_captures(self, n: nat) -> nat
        decreases n,
    {
        if n == 0 {
            0
        } else {
            self.spec_captures((n - 1) as nat) + if self.spec_after((n - 1) as nat).spec_tick().1 {
                1nat
            } else {
                0nat
            }
        }
    }

    /// A schedule that has counted no frame yet.
    pub fn new(frame_target: u32) -> (schedule: ScreenshotSchedule)
        ensures
            schedule == (ScreenshotSchedule { frame_target, frame: 0, triggered: false }),
    {
        ScreenshotSchedule { frame_target, frame: 0, triggered: false }
    }

    /// Counts a frame; returns whether this frame takes the screenshot: the
    /// first frame whose count reaches the target.
    pub fn tick(&mut self) -> (capture: bool)
        requires
            old(self).frame < u32::MAX,
        ensures
            (*final(self), capture) == old(self).spec_tick(),
    {
        self.frame = self.frame + 1;
        if self.triggered || self.frame < self.frame_target {
            return false;
        }
        self.triggered = true;
        true
    }
}

/// Frame counts, trigger flag and capture count along the way.
proof fn lemma_schedule_progress(s: ScreenshotSchedule, n: nat)
    requires
        s.frame == 0,
        !s.triggered,
        n <= u32::MAX,
    ensures
        s.spec_after(n).frame == n,
        s.spec_after(n).frame_target == s.frame_target,
        s.spec_after(n).triggered == (n >= s.frame_target && n >= 1),
        s.spec_captures(n) == (if n >= s.frame_target && n >= 1 {
            1nat
        } else {
            0nat
        }),
    decreases n,
{
    if n > 0 {
        lemma_schedule_progress(s, (n - 1) as nat);
    }
}

/// A fresh schedule takes exactly one screenshot within its first `n`
/// frames once `n` reaches the target (and at least one frame), and none
/// before.
pub proof fn lemma_single_capture(frame_target: u32, n: nat)
    requires
        n <= u32::MAX,
    ensures
        ({
            let s = ScreenshotSchedule { frame_target, frame: 0, triggered: false };
            s.spec_captures(n) == if n >= frame_target && n >= 1 {
                1nat
            } else {
                0nat
            }
        }),
{
    lemma_schedule_progress(ScreenshotSchedule { frame_target, frame: 0, triggered: false }, n);
}

/// The scene a run starts in.
#[derive(Clone, Copy, PartialEq, Eq, Debug, Structural)]
pub enum Scene {
    /// The autopilot has flown to the final approach near the pad.
    Autopilot,
    /// The lander stands on the pad.
    Landed,
    /// A fresh flight under player control.
    Live,
}

/// The scene named by an optional setting: `autopilot` and `landed` name
/// their scenes; anything else, or no setting, is a live flight.
pub fn scene_from_setting(setting: Option<&str>) -> (scene: Scene)
    ensures
        setting.is_none() ==> scene == Scene::Live,
        setting.is_some() ==> scene == (if setting.unwrap()@ == "autopilot"@ {
            Scene::Autopilot
        } else if setting.unwrap()@ == "landed"@ {
            Scene::Landed
        } else {
            Scene::Live
        }),
{
    match setting {
        None => Scene::Live,
        Some(text) => {
            let name = text.to_owned();
            if name == "autopilot".to_owned() {
                Scene::Autopilot
            } else if name == "landed".to_owned() {
                Scene::Landed
            } else {
                Scene::Live
            }
        },
    }
}

} // verus!
