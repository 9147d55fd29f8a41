//! Focus targets: the window that was focused when the popup opened, by
//! platform, so that focus can be given back before pasting.
use vstd::prelude::*;

use crate::text::{append_chars, append_str, chars_to_string, decimal, str_chars};

verus! {

/// A focused window, as each platform identifies it.
#[derive(Debug, Clone, PartialEq, Eq, Hash)]
pub enum FocusTarget {
    /// An X11 window id.
    X11(u64),
    /// A KWin window UUID, by its 128-bit value.
    Kde(u128),
    /// A Sway container id.
    Sway(i64),
    /// A Hyprland window address.
    Hyprland(String),
}

pub enum TargetView {
    X11(u64),
    Kde(u128),
    Sway(i64),
    Hyprland(Seq<char>),
}

impl View for FocusTarget {
    type V = TargetView;

    open spec fn view(&self) -> TargetView {
        match self {
            FocusTarget::X11(id) => TargetView::X11(*id),
            FocusTarget::Kde(id) => TargetView::Kde(*id),
            FocusTarget::Sway(id) => TargetView::Sway(*id),
            FocusTarget::Hyprland(a) => TargetView::Hyprland(a@),
        }
    }
}

/// A lowercase hexadecimal digit.
pub open spec fn hex_digit(d: nat) -> char {
    if d < 10 {
        (d + 48) as char
    } else {
        (d + 87) as char
    }
}

/// The 32 lowercase hex digits of a UUID, most significant first.
pub open spec fn uuid_simple_text(v: u128) -> Seq<char> {
    Seq::new(32, |i: int| hex_digit(((v >> ((124 - 4 * i) as u128)) & 15u128) as nat))
}

/// The hyphenated form: digit groups of 8, 4, 4, 4 and 12.
pub open spec fn uuid_hyphenated_text(v: u128) -> Seq<char> {
    let s = uuid_simple_text(v);
    s.subrange(0, 8) + "-"@ + s.subrange(8, 12) + "-"@ + s.subrange(12, 16) + "-"@ + s.subrange(
        16,
        20,
    ) + "-"@ + s.subrange(20, 32)
}

/// `uuid::Uuid::from_u128(bits).hyphenated().to_string()`: the UUID's lowercase
/// hyphenated form, as the crate documents it.
#[verifier::external_body]
pub(crate) fn format_uuid_hyphenated(bits: u128) -> (r: String)
    ensures
        r@ == uuid_hyphenated_text(bits),
{
    uuid::Uuid::from_u128(bits).hyphenated().to_string()
}

/// `uuid::Uuid::from_u128(bits).simple().to_string()`: the 32 lowercase hex digits.
#[verifier::external_body]
pub(crate) fn format_uuid_simple(bits: u128) -> (r: String)
    ensures
        r@ == uuid_simple_text(bits),
{
    uuid::Uuid::from_u128(bits).simple().to_string()
}

/// What `uuid::Uuid::parse_str` makes of a text: the UUID's value, or the
/// text of the parse error.
pub uninterp spec fn uuid_parse(text: Seq<char>) -> Result<u128, Seq<char>>;

/// `uuid::Uuid::parse_str`, by the value of the UUID; a failure is reported by
/// the error's text.
#[verifier::external_body]
pub(crate) fn parse_uuid(text: &str) -> (r: Result<u128, String>)
    ensures
        match r {
            Ok(v) => uuid_parse(text@) == Ok::<u128, Seq<char>>(v),
            Err(e) => uuid_parse(text@) == Err::<u128, Seq<char>>(e@),
        },
{
    match uuid::Uuid::parse_str(text) {
        Ok(u) => Ok(u.as_u128()),
        Err(e) => Err(e.to_string()),
    }
}

/// The decimal text of a signed number.
pub open spec fn signed_decimal(n: int) -> Seq<char> {
    if n < 0 {
        "-"@ + decimal((-n) as nat)
    } else {
        decimal(n as nat)
    }
}

/// `format!("{n}")` for a `u64`.
pub fn decimal_u64(n: u64) -> (r: Vec<char>)
    ensures
        r@ == decimal(n as nat),
    decreases n,
{
    let d = ((n % 10) as u8 + 48) as char;
    if n < 10 {
        let r = vec![d];
        assert(r@ =~= decimal(n as nat));
        r
    } else {
        let mut r = decimal_u64(n / 10);
        r.push(d);
        r
    }
}

/// `format!("{n}")` for an `i64`.
pub fn decimal_i64(n: i64) -> (r: Vec<char>)
    ensures
        r@ == signed_decimal(n as int),
{
    if n < 0 {
        let m: u64 = if n == i64::MIN {
            9223372036854775808u64
        } else {
            (-n) as u64
        };
        let digits = decimal_u64(m);
        let mut r = str_chars("-");
        append_chars(&mut r, &digits);
        r
    } else {
        decimal_u64(n as u64)
    }
}

/// The text of a focus target: the platform, a colon and the identifier.
pub open spec fn target_text(t: TargetView) -> Seq<char> {
    match t {
        TargetView::X11(id) => "x11:"@ + decimal(id as nat),
        TargetView::Kde(id) => "kde:"@ + uuid_hyphenated_text(id),
        TargetView::Sway(id) => "sway:"@ + signed_decimal(id as int),
        TargetView::Hyprland(a) => "hyprland:"@ + a,
    }
}

impl FocusTarget {
    /// An X11 window (the meaning of a bare id since focus targets were X11 ids).
    pub fn new(id: u64) -> (r: Self)
        ensures
            r@ == TargetView::X11(id),
    {
        FocusTarget::X11(id)
    }

    pub fn x11(id: u64) -> (r: Self)
        ensures
            r@ == TargetView::X11(id),
    {
        FocusTarget::X11(id)
    }

    pub fn kde(id: u128) -> (r: Self)
        ensures
            r@ == TargetView::Kde(id),
    {
        FocusTarget::Kde(id)
    }

    pub fn sway(id: i64) -> (r: Self)
        ensures
            r@ == TargetView::Sway(id),
    {
        FocusTarget::Sway(id)
    }

    pub fn hyprland(address: String) -> (r: Self)
        ensures
            r@ == TargetView::Hyprland(address@),
    {
        FocusTarget::Hyprland(address)
    }

    pub fn x11_id(&self) -> (r: Option<u64>)
        ensures
            r == match self@ {
                TargetView::X11(id) => Some(id),
                _ => None::<u64>,
            },
    {
        match self {
            FocusTarget::X11(id) => Some(*id),
            _ => None,
        }
    }

    pub fn kde_id(&self) -> (r: Option<u128>)
        ensures
            r == match self@ {
                TargetView::Kde(id) => Some(id),
                _ => None::<u128>,
            },
    {
        match self {
            FocusTarget::Kde(id) => Some(*id),
            _ => None,
        }
    }

    pub fn to_string(&self) -> (r: String)
        ensures
            r@ == target_text(self@),
    {
        let mut out: Vec<char>;
        match self {
            FocusTarget::X11(id) => {
                out = str_chars("x11:");
                let d = decimal_u64(*id);
                append_chars(&mut out, &d);
            },
            FocusTarget::Kde(id) => {
                out = str_chars("kde:");
                let u = format_uuid_hyphenated(*id);
                append_str(&mut out, u.as_str());
            },
            FocusTarget::Sway(id) => {
                out = str_chars("sway:");
                let d = decimal_i64(*id);
                append_chars(&mut out, &d);
            },
            FocusTarget::Hyprland(a) => {
                out = str_chars("hyprland:");
                append_str(&mut out, a.as_str());
            },
        }
        chars_to_string(&out)
    }

    /// A copy of the target.
    pub fn duplicate(&self) -> (r: Self)
        ensures
            r@ == self@,
    {
        match self {
            FocusTarget::X11(id) => FocusTarget::X11(*id),
            FocusTarget::Kde(id) => FocusTarget::Kde(*id),
            FocusTarget::Sway(id) => FocusTarget::Sway(*id),
            FocusTarget::Hyprland(a) => FocusTarget::Hyprland(a.clone()),
        }
    }
}

#[derive(Debug)]
pub enum FocusError {
    Unavailable,
    Failed(String),
}

pub enum FocusErrorView {
    Unavailable,
    Failed(Seq<char>),
}

impl View for FocusError {
    type V = FocusErrorView;

    open spec fn view(&self) -> FocusErrorView {
        match self {
            FocusError::Unavailable => FocusErrorView::Unavailable,
            FocusError::Failed(m) => FocusErrorView::Failed(m@),
        }
    }
}

/// A way of reading and giving back window focus.
pub trait FocusBackend {
    fn active_target(&self) -> Result<FocusTarget, FocusError>;

    fn restore(&self, target: FocusTarget) -> Result<(), FocusError>;

    fn is_active(&self, target: FocusTarget) -> Result<bool, FocusError>;
}

/// The backend of sessions where focus cannot be restored.
pub struct UnavailableFocusBackend;

impl FocusBackend for UnavailableFocusBackend {
    fn active_target(&self) -> (r: Result<FocusTarget, FocusError>)
        ensures
            r matches Err(FocusError::Unavailable),
    {
        Err(FocusError::Unavailable)
    }

    fn restore(&self, target: FocusTarget) -> (r: Result<(), FocusError>)
        ensures
            r matches Err(FocusError::Unavailable),
    {
        Err(FocusError::Unavailable)
    }

    fn is_active(&self, target: FocusTarget) -> (r: Result<bool, FocusError>)
        ensures
            r matches Err(FocusError::Unavailable),
    {
        Err(FocusError::Unavailable)
    }
}

/// The error for a target of another platform.
pub fn wrong_target_error(prefix: &str, target: &FocusTarget) -> (r: FocusError)
    ensures
        r@ == FocusErrorView::Failed(prefix@ + target_text(target@)),
{
    let mut m = str_chars(prefix);
    let t = target.to_string();
    append_str(&mut m, t.as_str());
    FocusError::Failed(chars_to_string(&m))
}

/// Milliseconds between checks whether a restored window became active.
pub const FOCUS_POLL_INTERVAL_MS: u64 = 5;

/// Milliseconds after which restoring focus has failed.
pub const FOCUS_TIMEOUT_MS: u64 = 250;

/// What waiting for a restored window does after a check.
#[derive(Debug)]
pub enum FocusWaitStep {
    /// The window is active.
    Restored,
    /// Check again after the poll interval.
    Poll,
    /// Give up with the error.
    TimedOut(FocusError),
}

/// One check of the wait for `target` to become active: active ends the
/// wait, otherwise it times out once `elapsed_ms` reached `timeout_ms`.
pub fn focus_wait_step(target: &FocusTarget, active: bool, elapsed_ms: u64, timeout_ms: u64) -> (r:
    FocusWaitStep)
    ensures
        active ==> r is Restored,
        !active && elapsed_ms < timeout_ms ==> r is Poll,
        !active && elapsed_ms >= timeout_ms ==> (r matches FocusWaitStep::TimedOut(e) && e@
            == FocusErrorView::Failed(
            "focus restoration timed out for target "@ + target_text(target@),
        )),
{
    if active {
        return FocusWaitStep::Restored;
    }
    if elapsed_ms >= timeout_ms {
        let mut m = str_chars("focus restoration timed out for target ");
        let t = target.to_string();
        append_str(&mut m, t.as_str());
        return FocusWaitStep::TimedOut(FocusError::Failed(chars_to_string(&m)));
    }
    FocusWaitStep::Poll
}

} // verus!
