//! Two-stage capture of a width and a height, typed as decimal digits.
use vstd::prelude::*;

verus! {

pub open spec fn is_digit(c: char) -> bool {
    '0' <= c && c <= '9'
}

pub open spec fn digit_value(c: char) -> nat {
    (c as int - '0' as int) as nat
}

pub open spec fn all_digits(s: Seq<char>) -> bool {
    forall|i: int| 0 <= i < s.len() ==> is_digit(#[trigger] s[i])
}

/// The number that a sequence of decimal digits writes.
pub open spec fn digits_value(s: Seq<char>) -> nat
    decreases s.len(),
{
    if s.len() == 0 {
        0
    } else {
        digits_value(s.drop_last()) * 10 + digit_value(s.last())
    }
}

/// What a typed buffer commits to: its value when it is a non-empty run of
/// digits worth at most 255, and 0 otherwise.
pub open spec fn dimension_of(s: Seq<char>) -> nat {
    if s.len() > 0 && all_digits(s) && digits_value(s) <= 255 {
        digits_value(s)
    } else {
        0
    }
}

/// Which of the two values the typed digits are for.
#[derive(Clone, Copy, Debug, PartialEq, Eq, Structural)]
pub enum Stage {
    AwaitingWidth,
    AwaitingHeight,
}

/// The state of the capture: typed digits, stage, and the pending values.
pub struct ResizeInputView {
    pub buffer: Seq<char>,
    pub stage: Stage,
    pub width: u8,
    pub height: u8,
}

/// The state the capture starts in and returns to after each completed entry.
pub open spec fn initial_input() -> ResizeInputView {
    ResizeInputView { buffer: Seq::empty(), stage: Stage::AwaitingWidth, width: 0, height: 0 }
}

/// The state after a commit key, and the (width, height) pair it completes.
pub open spec fn commit_of(v: ResizeInputView) -> (ResizeInputView, Option<(u8, u8)>) {
    match v.stage {
        Stage::AwaitingWidth => (
            ResizeInputView {
                buffer: Seq::empty(),
                stage: Stage::AwaitingHeight,
                width: dimension_of(v.buffer) as u8,
                height: v.height,
            },
            None,
        ),
        Stage::AwaitingHeight => (initial_input(), Some((v.width, dimension_of(v.buffer) as u8))),
    }
}

/// The state after typing `c`: digits are appended, anything else is ignored.
pub open spec fn typed(v: ResizeInputView, c: char) -> ResizeInputView {
    if is_digit(c) {
        ResizeInputView { buffer: v.buffer.push(c), ..v }
    } else {
        v
    }
}

/// The state after the pending pair has been handed out.
pub open spec fn pending_taken(v: ResizeInputView) -> ResizeInputView {
    ResizeInputView { width: 0, height: 0, ..v }
}

/// Reads a buffer as a dimension: a non-empty run of digits worth at most
/// 255 gives its value; an empty buffer, a non-digit or a larger value gives 0.
pub fn parse_dimension(buffer: &Vec<char>) -> (r: u8)
    ensures
        r as nat == dimension_of(buffer@),
{
    if buffer.len() == 0 {
        return 0;
    }
    // `acc` is the value of the digits read so far, or 256 once it exceeds 255.
    let mut acc: u32 = 0;
    let mut i: usize = 0;
    while i < buffer.len()
        invariant
            0 <= i <= buffer.len(),
            all_digits(buffer@.take(i as int)),
            acc == if digits_value(buffer@.take(i as int)) <= 255 {
                digits_value(buffer@.take(i as int))
            } else {
                256
            },
        decreases buffer.len() - i,
    {
        let c = buffer[i];
        if !('0' <= c && c <= '9') {
            assert(!is_digit(buffer@[i as int]));
            return 0;
        }
        let d: u32 = (c as u32) - ('0' as u32);
        proof {
            let s = buffer@.take(i + 1);
            assert(s.drop_last() =~= buffer@.take(i as int));
            assert(s.last() == c);
            assert(digits_value(s) == digits_value(buffer@.take(i as int)) * 10 + d);
            assert(all_digits(s));
        }
        if acc <= 255 {
            let n: u32 = acc * 10 + d;
            acc = if n > 255 {
                256
            } else {
                n
            };
        }
        i += 1;
    }
    proof {
        assert(buffer@.take(buffer@.len() as int) =~= buffer@);
    }
    if acc <= 255 {
        acc as u8
    } else {
        0
    }
}

/// The capture state: digits typed so far, the stage, and the pending width
/// and height. The buffer holds digits only.
pub struct ResizeInput {
    buffer: Vec<char>,
    stage: Stage,
    width: u8,
    height: u8,
}

impl View for ResizeInput {
    type V = ResizeInputView;

    closed spec fn view(&self) -> ResizeInputView {
        ResizeInputView {
            buffer: self.buffer@,
            stage: self.stage,
            width: self.width,
            height: self.height,
        }
    }
}

impl ResizeInput {
    pub open spec fn wf(&self) -> bool {
        all_digits(self@.buffer)
    }

    /// An empty capture awaiting the width.
    pub fn new() -> (r: ResizeInput)
        ensures
            r@ == initial_input(),
            r.wf(),
    {
        ResizeInput { buffer: Vec::new(), stage: Stage::AwaitingWidth, width: 0, height: 0 }
    }

    pub fn stage(&self) -> (r: Stage)
        ensures
            r == self@.stage,
    {
        self.stage
    }

    pub fn width(&self) -> (r: u8)
        ensures
            r == self@.width,
    {
        self.width
    }

    pub fn height(&self) -> (r: u8)
        ensures
            r == self@.height,
    {
        self.height
    }

    /// The digits typed since the last commit or reset.
    pub fn buffer(&self) -> (r: &Vec<char>)
        ensures
            r@ == self@.buffer,
    {
        &self.buffer
    }

    /// Appends `c` to the buffer if it is a decimal digit; ignores it otherwise.
    pub fn push_digit(&mut self, c: char)
        requires
            old(self).wf(),
        ensures
            final(self).wf(),
            final(self)@ == typed(old(self)@, c),
    {
        if '0' <= c && c <= '9' {
            self.buffer.push(c);
        }
    }

    /// Commits the buffer. Awaiting the width, it becomes the pending width and
    /// the height is awaited next. Awaiting the height, it completes the pair,
    /// which is returned, and the capture starts over with zeroed values.
    pub fn commit(&mut self) -> (r: Option<(u8, u8)>)
        requires
            old(self).wf(),
        ensures
            final(self).wf(),
            (final(self)@, r) == commit_of(old(self)@),
            old(self)@.stage == Stage::AwaitingHeight ==> final(self)@ == initial_input(),
    {
        let value = parse_dimension(&self.buffer);
        self.buffer.clear();
        match self.stage {
            Stage::AwaitingWidth => {
                self.width = value;
                self.stage = Stage::AwaitingHeight;
                None
            },
            Stage::AwaitingHeight => {
                let pair = (self.width, value);
                self.width = 0;
                self.height = 0;
                self.stage = Stage::AwaitingWidth;
                Some(pair)
            },
        }
    }

    /// Abandons the entry: empty buffer, width awaited, both values zero.
    pub fn reset(&mut self)
        ensures
            final(self).wf(),
            final(self)@ == initial_input(),
    {
        self.buffer.clear();
        self.stage = Stage::AwaitingWidth;
        self.width = 0;
        self.height = 0;
    }

    /// Hands out the pending (width, height) pair and zeroes both values;
    /// the buffer and the stage are kept.
    pub fn take_pending(&mut self) -> (r: (u8, u8))
        requires
            old(self).wf(),
        ensures
            final(self).wf(),
            r == (old(self)@.width, old(self)@.height),
            final(self)@ == pending_taken(old(self)@),
    {
        let pair = (self.width, self.height);
        self.width = 0;
        self.height = 0;
        pair
    }
}

} // verus!
