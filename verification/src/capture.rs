//! The capture flow's decisions.
//!
//! Taking the screenshot itself is the host's business: it runs the screen
//! grabber and the region selector as external programs. This module holds
//! the decisions between those runs — which step a capture mode starts with,
//! whether a remembered region is reused, and how a selector's output is
//! cleaned and judged — over plain bytes.

use vstd::prelude::*;

verus! {

/// What to capture.
#[derive(Clone, Copy, PartialEq, Eq, Structural, Debug)]
pub enum CaptureMode {
    Fullscreen,
    Region,
    Window,
}

/// The next step of a capture flow: run the grabber (over the whole screen
/// or a geometry), ask the user whether to reuse the previous region, or run
/// the region or window selector.
#[derive(Clone, PartialEq, Eq, Debug)]
pub enum CaptureStep {
    Grab { geometry: Option<Vec<u8>> },
    PromptReuse { last: Vec<u8> },
    SelectRegion,
    SelectWindow,
}

/// Why a capture attempt ended without an image.
#[derive(Clone, Copy, PartialEq, Eq, Structural, Debug)]
pub enum CaptureError {
    SelectionCancelled,
    NoRegionSelected,
    NoWindowSelected,
}

pub open spec fn is_ascii_space(b: u8) -> bool {
    b == 32 || b == 9 || b == 10 || b == 11 || b == 12 || b == 13
}

pub open spec fn trim_start_idx(s: Seq<u8>, i: int) -> int
    recommends
        0 <= i <= s.len(),
    decreases s.len() - i,
{
    if i >= s.len() {
        s.len() as int
    } else if is_ascii_space(s[i]) {
        trim_start_idx(s, i + 1)
    } else {
        i
    }
}

pub open spec fn trim_end_idx(s: Seq<u8>, i: int) -> int
    recommends
        0 <= i <= s.len(),
    decreases i,
{
    if i <= 0 {
        0
    } else if is_ascii_space(s[i - 1]) {
        trim_end_idx(s, i - 1)
    } else {
        i
    }
}

/// The bytes with ASCII whitespace removed from both ends.
pub open spec fn spec_trim(s: Seq<u8>) -> Seq<u8> {
    let a = trim_start_idx(s, 0);
    let b = trim_end_idx(s, s.len() as int);
    if a < b {
        s.subrange(a, b)
    } else {
        Seq::empty()
    }
}

proof fn lemma_trim_start_range(s: Seq<u8>, i: int)
    requires
        0 <= i <= s.len(),
    ensures
        i <= trim_start_idx(s, i) <= s.len(),
    decreases s.len() - i,
{
    if i < s.len() && is_ascii_space(s[i]) {
        lemma_trim_start_range(s, i + 1);
    }
}

proof fn lemma_trim_end_range(s: Seq<u8>, i: int)
    requires
        0 <= i <= s.len(),
    ensures
        0 <= trim_end_idx(s, i) <= i,
    decreases i,
{
    if i > 0 && is_ascii_space(s[i - 1]) {
        lemma_trim_end_range(s, i - 1);
    }
}

/// Strip ASCII whitespace from both ends of the bytes.
pub fn trim_bytes(s: &[u8]) -> (r: Vec<u8>)
    ensures
        r@ == spec_trim(s@),
{
    let n = s.len();
    let mut a: usize = 0;
    while a < n && (s[a] == 32 || s[a] == 9 || s[a] == 10 || s[a] == 11 || s[a] == 12 || s[a] == 13)
        invariant
            n == s@.len(),
            0 <= a <= n,
            trim_start_idx(s@, 0) == trim_start_idx(s@, a as int),
        decreases n - a,
    {
        a += 1;
    }
    let mut b: usize = n;
    while b > 0 && (s[b - 1] == 32 || s[b - 1] == 9 || s[b - 1] == 10 || s[b - 1] == 11 || s[b - 1]
        == 12 || s[b - 1] == 13)
        invariant
            n == s@.len(),
            0 <= b <= n,
            trim_end_idx(s@, n as int) == trim_end_idx(s@, b as int),
        decreases b,
    {
        b -= 1;
    }
    proof {
        lemma_trim_start_range(s@, a as int);
        lemma_trim_end_range(s@, b as int);
    }
    let mut r: Vec<u8> = Vec::new();
    if a < b {
        let mut i = a;
        while i < b
            invariant
                a <= i <= b <= n,
                n == s@.len(),
                r@ =~= s@.subrange(a as int, i as int),
            decreases b - i,
        {
            r.push(s[i]);
            proof {
                assert(r@ =~= s@.subrange(a as int, i + 1));
            }
            i += 1;
        }
    }
    proof {
        assert(r@ =~= spec_trim(s@));
    }
    r
}

/// A remembered region, cleaned: trimmed of surrounding whitespace and
/// rejected when nothing is left.
pub fn normalize_region(s: &[u8]) -> (r: Option<Vec<u8>>)
    ensures
        spec_trim(s@).len() == 0 ==> r is None,
        spec_trim(s@).len() > 0 ==> (r matches Some(v) && v@ == spec_trim(s@)),
{
    let t = trim_bytes(s);
    if t.len() == 0 {
        None
    } else {
        Some(t)
    }
}

/// Runs the capture flow's decisions; the host performs each returned step.
pub struct CaptureBackend;

impl CaptureBackend {
    /// The first step of a capture. A fullscreen capture grabs at once. A
    /// region capture offers the remembered region when one exists and the
    /// user can be asked (standard input is a terminal), and otherwise goes
    /// straight to the region selector. A window capture goes to the window
    /// selector.
    pub fn capture(mode: CaptureMode, stdin_is_tty: bool, last_region: Option<Vec<u8>>) -> (r:
        CaptureStep)
        ensures
            ({
                match mode {
                    CaptureMode::Fullscreen => r == (CaptureStep::Grab { geometry: None }),
                    CaptureMode::Region => match last_region {
                        Some(last) => if stdin_is_tty {
                            r == (CaptureStep::PromptReuse { last })
                        } else {
                            r == CaptureStep::SelectRegion
                        },
                        None => r == CaptureStep::SelectRegion,
                    },
                    CaptureMode::Window => r == CaptureStep::SelectWindow,
                }
            }),
    {
        match mode {
            CaptureMode::Fullscreen => CaptureStep::Grab { geometry: None },
            CaptureMode::Region => {
                if stdin_is_tty {
                    match last_region {
                        Some(last) => CaptureStep::PromptReuse { last },
                        None => CaptureStep::SelectRegion,
                    }
                } else {
                    CaptureStep::SelectRegion
                }
            },
            CaptureMode::Window => CaptureStep::SelectWindow,
        }
    }

    /// The step after the reuse prompt: an empty reply (only whitespace)
    /// reuses the remembered region, anything else opens the selector.
    pub fn after_prompt(last: Vec<u8>, reply: &[u8]) -> (r: CaptureStep)
        ensures
            spec_trim(reply@).len() == 0 ==> (r matches CaptureStep::Grab { geometry: Some(g) }
                && g@ == last@),
            spec_trim(reply@).len() > 0 ==> r == CaptureStep::SelectRegion,
    {
        let t = trim_bytes(reply);
        if t.len() == 0 {
            CaptureStep::Grab { geometry: Some(last) }
        } else {
            CaptureStep::SelectRegion
        }
    }

    /// Judge a selector run: a failed run means the selection was cancelled;
    /// otherwise its output is trimmed, and an empty result means nothing
    /// was selected. A non-empty geometry moves on to the grabber.
    pub fn after_selection(ok: bool, output: &[u8], window: bool) -> (r: Result<
        CaptureStep,
        CaptureError,
    >)
        ensures
            !ok ==> r == Result::<CaptureStep, CaptureError>::Err(CaptureError::SelectionCancelled),
            ok && spec_trim(output@).len() == 0 ==> r == Result::<CaptureStep, CaptureError>::Err(
                if window {
                    CaptureError::NoWindowSelected
                } else {
                    CaptureError::NoRegionSelected
                },
            ),
            ok && spec_trim(output@).len() > 0 ==> (r matches Ok(
                CaptureStep::Grab { geometry: Some(g) },
            ) && g@ == spec_trim(output@)),
    {
        if !ok {
            return Err(CaptureError::SelectionCancelled);
        }
        let t = trim_bytes(output);
        if t.len() == 0 {
            if window {
                Err(CaptureError::NoWindowSelected)
            } else {
                Err(CaptureError::NoRegionSelected)
            }
        } else {
            Ok(CaptureStep::Grab { geometry: Some(t) })
        }
    }
}

} // verus!
