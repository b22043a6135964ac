//! Bootstrapping: window options from the command line, and event signals.

use vstd::prelude::*;
use vstd::std_specs::iter::IteratorSpec;

verus! {

/// Signals events can pass up back to their handlers to notify them how they have processed an
/// event. They’re four kinds of signals:
///
/// - `EventSig::Ignored`:  the event should be passed to other handlers the parents knows about –
///    if any – because it wasn’t handled (ignored);
///
/// - `EventSig::Handled`: the event has been correctly handled;
///
/// - `EventSig::Focused`: the event has been correctly handled, and the parent should consider
///    that the this handler has now an exclusive focus on that event;
///
/// - `EventSig::Aborted`: the event has been correctly handled and the parent handler should be
///    aborted. This signal is typically used to kill all the handlers chain and thus quit the
///    application.
#[derive(Clone, Copy, Debug, Eq, PartialEq, Structural)]
pub enum EventSig {
    Ignored,
    Handled,
    Focused,
    Aborted,
}

/// Empty handler.
///
/// This handler will just let pass all events without doing anything. It’s only useful for debug
/// purposes when you don’t want to bother with interaction.
#[derive(Clone, Copy, Eq, Debug, PartialEq, Structural)]
pub struct Unhandled;

impl Unhandled {
    /// What the empty handler answers to any event: it ignores it.
    pub fn on_event(&mut self) -> (res: EventSig)
        ensures
            res == EventSig::Ignored,
    {
        EventSig::Ignored
    }
}

/// Whether the dispatching of events goes on after a handler answered `sig`: only an aborted
/// event stops it.
pub fn keeps_dispatching(sig: EventSig) -> (res: bool)
    ensures
        res == (sig != EventSig::Aborted),
{
    sig != EventSig::Aborted
}

/// Dimension of the window to create.
#[derive(Clone, Copy, Debug, Eq, PartialEq, Structural)]
pub enum WindowDim {
    /// A window of the given width and height.
    Windowed(u32, u32),
    /// Fullscreen, at the screen's own resolution.
    Fullscreen,
    /// Fullscreen, at the given width and height.
    FullscreenRestricted(u32, u32),
}

/// Whether a character is an ASCII decimal digit.
pub open spec fn is_digit(c: char) -> bool {
    '0' <= c && c <= '9'
}

/// The value of a decimal digit.
pub open spec fn digit_value(c: char) -> nat {
    (c as int - '0' as int) as nat
}

/// The value of a sequence of decimal digits.
pub open spec fn digits_value(s: Seq<char>) -> nat
    decreases s.len(),
{
    if s.len() == 0 {
        0
    } else {
        digits_value(s.drop_last()) * 10 + digit_value(s.last())
    }
}

/// The digits of an unsigned number in text: what follows an optional leading `+`.
pub open spec fn unsigned_digits(s: Seq<char>) -> Seq<char> {
    if s.len() > 0 && s[0] == '+' {
        s.drop_first()
    } else {
        s
    }
}

/// The unsigned number a text stands for, as Rust's `FromStr` for unsigned integers reads it: an
/// optional `+`, then at least one decimal digit and nothing else; none for any other text.
pub open spec fn unsigned_value(s: Seq<char>) -> Option<nat> {
    let d = unsigned_digits(s);
    if d.len() > 0 && forall|i: int| 0 <= i < d.len() ==> is_digit(#[trigger] d[i]) {
        Some(digits_value(d))
    } else {
        None
    }
}

/// The number a text stands for, if it is at most `max`.
pub open spec fn parsed_at_most(s: Seq<char>, max: nat) -> Option<nat> {
    match unsigned_value(s) {
        Some(v) => if v <= max {
            Some(v)
        } else {
            None
        },
        None => None,
    }
}

proof fn lemma_digits_value_grows(s: Seq<char>, t: Seq<char>)
    requires
        forall|i: int| 0 <= i < t.len() ==> is_digit(#[trigger] t[i]),
    ensures
        digits_value(s + t) >= digits_value(s),
    decreases t.len(),
{
    if t.len() > 0 {
        assert((s + t).drop_last() =~= s + t.drop_last());
        assert(forall|i: int| 0 <= i < t.drop_last().len() ==> t.drop_last()[i] == t[i]);
        lemma_digits_value_grows(s, t.drop_last());
    } else {
        assert(s + t =~= s);
    }
}

/// Read an unsigned number of at most `max`, as Rust's `FromStr` for unsigned integers reads
/// text; none if the text is not such a number or the number is larger.
pub fn parse_unsigned(s: &str, max: u64) -> (res: Option<u64>)
    ensures
        match res {
            Some(v) => parsed_at_most(s@, max as nat) == Some(v as nat),
            None => parsed_at_most(s@, max as nat) is None,
        },
{
    let ghost chars = s@;
    let ghost d = unsigned_digits(chars);
    let ghost off: int = if chars.len() > 0 && chars[0] == '+' {
        1
    } else {
        0
    };
    assert(d =~= chars.subrange(off, chars.len() as int));
    let mut it = s.chars();
    proof {
        broadcast use vstd::string::axiom_spec_iter;
    }
    let ghost mut i: int = 0;
    let ghost mut k: int = 0;
    let mut acc: u64 = 0;
    let mut any = false;
    let mut first = true;
    assert(d.take(0) =~= Seq::<char>::empty());
    loop
        invariant
            it.obeys_prophetic_iter_laws(),
            chars == s@,
            d == chars.subrange(off, chars.len() as int),
            d == unsigned_digits(chars),
            off == (if chars.len() > 0 && chars[0] == '+' { 1int } else { 0int }),
            0 <= i <= chars.len(),
            it.remaining() == chars.skip(i),
            first <==> i == 0,
            i == 0 ==> k == 0,
            i > 0 ==> i == k + off,
            0 <= k <= d.len(),
            forall|j: int| 0 <= j < k ==> is_digit(#[trigger] d[j]),
            acc == digits_value(d.take(k)),
            any <==> k > 0,
            acc <= max,
        ensures
            i == chars.len(),
            i == 0 ==> k == 0,
            i > 0 ==> i == k + off,
            0 <= k <= d.len(),
            forall|j: int| 0 <= j < k ==> is_digit(#[trigger] d[j]),
            acc == digits_value(d.take(k)),
            any <==> k > 0,
            acc <= max,
        decreases chars.len() - i,
    {
        let next = it.next();
        proof {
            broadcast use vstd::string::next_postcondition;
        }
        match next {
            None => {
                assert(chars.skip(i).len() == 0);
                break;
            },
            Some(c) => {
                assert(chars.skip(i).len() > 0);
                assert(c == chars[i]);
                if first && c == '+' {
                    first = false;
                } else {
                    assert(d[k] == c);
                    if c < '0' || c > '9' {
                        assert(!is_digit(d[k]));
                        assert(unsigned_value(chars) is None);
                        return None;
                    }
                    let dv = (c as u32 - '0' as u32) as u64;
                    assert(d.take(k + 1).drop_last() =~= d.take(k));
                    assert(d.take(k + 1).last() == c);
                    assert(dv == digit_value(c));
                    assert(digits_value(d.take(k + 1)) == acc * 10 + dv);
                    if dv > max || acc > (max - dv) / 10 {
                        proof {
                            if dv <= max {
                                assert(acc * 10 + dv > max) by (nonlinear_arith)
                                    requires
                                        acc > (max - dv) / 10,
                                        dv <= max,
                                ;
                            }
                            if unsigned_value(chars) is Some {
                                lemma_digits_value_grows(d.take(k + 1), d.skip(k + 1));
                                assert(d.take(k + 1) + d.skip(k + 1) =~= d);
                            }
                        }
                        return None;
                    }
                    first = false;
                    any = true;
                    acc = acc * 10 + dv;
                    proof {
                        k = k + 1;
                    }
                }
                assert(chars.skip(i).drop_first() =~= chars.skip(i + 1));
                proof {
                    i = i + 1;
                }
            },
        }
    }
    assert(d.take(k) =~= d);
    if any {
        Some(acc)
    } else {
        None
    }
}

/// The window dimension asked for on the command line: the width and height given, each
/// defaulting to its default when absent or not a number, fullscreen if asked, restricted to
/// the given width and height only when both were given.
pub open spec fn spec_window_dim(
    def_width: u32,
    def_height: u32,
    width: Option<Seq<char>>,
    height: Option<Seq<char>>,
    fullscreen: bool,
) -> WindowDim {
    let w = dimension_or(width, def_width);
    let h = dimension_or(height, def_height);
    if fullscreen {
        if width is Some && height is Some {
            WindowDim::FullscreenRestricted(w, h)
        } else {
            WindowDim::Fullscreen
        }
    } else {
        WindowDim::Windowed(w, h)
    }
}

/// The mode of the window follows the options: without fullscreen, a window of the given (or
/// default) dimensions; with fullscreen, restricted to the given dimensions exactly when both a
/// width and a height were given, and at the screen's own resolution when either is missing.
pub proof fn lemma_window_dim_modes(
    def_width: u32,
    def_height: u32,
    width: Option<Seq<char>>,
    height: Option<Seq<char>>,
    fullscreen: bool,
)
    ensures
        ({
            let r = spec_window_dim(def_width, def_height, width, height, fullscreen);
            &&& fullscreen ==> (r is FullscreenRestricted <==> (width is Some && height is Some))
            &&& fullscreen && (width is None || height is None) ==> r == WindowDim::Fullscreen
            &&& !fullscreen ==> r == WindowDim::Windowed(
                dimension_or(width, def_width),
                dimension_or(height, def_height),
            )
            &&& r matches WindowDim::FullscreenRestricted(w, h) ==> w == dimension_or(
                width,
                def_width,
            ) && h == dimension_or(height, def_height)
        }),
{
}

/// A dimension given as text, or `def` if it is absent or not a 32-bit unsigned number.
pub open spec fn dimension_or(s: Option<Seq<char>>, def: u32) -> u32 {
    match s {
        Some(t) => match parsed_at_most(t, u32::MAX as nat) {
            Some(v) => v as u32,
            None => def,
        },
        None => def,
    }
}

/// A dimension given as text, or `def` if it is absent or not a 32-bit unsigned number.
pub fn parse_dimension(s: Option<&str>, def: u32) -> (res: u32)
    ensures
        res == dimension_or(opt_text(s), def),
{
    match s {
        Some(t) => match parse_unsigned(t, u32::MAX as u64) {
            Some(v) => v as u32,
            None => def,
        },
        None => def,
    }
}

/// The characters of an optional text.
pub open spec fn opt_text(s: Option<&str>) -> Option<Seq<char>> {
    match s {
        Some(t) => Some(t@),
        None => None,
    }
}

/// Build the window dimension from the command line options: the `width` and `height` values,
/// if given, and whether `fullscreen` was asked.
pub fn window_dim(
    def_width: u32,
    def_height: u32,
    width: Option<&str>,
    height: Option<&str>,
    fullscreen: bool,
) -> (res: WindowDim)
    ensures
        res == spec_window_dim(def_width, def_height, opt_text(width), opt_text(height), fullscreen),
        fullscreen ==> (res is FullscreenRestricted <==> (width is Some && height is Some)),
        fullscreen && !(width is Some && height is Some) ==> res == WindowDim::Fullscreen,
        !fullscreen ==> res == WindowDim::Windowed(
            dimension_or(opt_text(width), def_width),
            dimension_or(opt_text(height), def_height),
        ),
        res matches WindowDim::FullscreenRestricted(w, h) ==> w == dimension_or(
            opt_text(width),
            def_width,
        ) && h == dimension_or(opt_text(height), def_height),
{
    proof {
        lemma_window_dim_modes(def_width, def_height, opt_text(width), opt_text(height), fullscreen);
    }
    let w = parse_dimension(width, def_width);
    let h = parse_dimension(height, def_height);
    if fullscreen {
        if width.is_some() && height.is_some() {
            WindowDim::FullscreenRestricted(w, h)
        } else {
            WindowDim::Fullscreen
        }
    } else {
        WindowDim::Windowed(w, h)
    }
}

/// The framerate limit given on the command line, in hertz; none if absent or not a 16-bit
/// unsigned number.
pub fn framerate_limit(s: Option<&str>) -> (res: Option<u16>)
    ensures
        match opt_text(s) {
            Some(t) => match parsed_at_most(t, u16::MAX as nat) {
                Some(v) => res == Some(v as u16),
                None => res is None,
            },
            None => res is None,
        },
{
    match s {
        Some(t) => match parse_unsigned(t, u16::MAX as u64) {
            Some(v) => Some(v as u16),
            None => None,
        },
        None => None,
    }
}

} // verus!
