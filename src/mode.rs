use vstd::prelude::*;

verus! {

/// The acceleration tier at which the early receive hook runs.
#[derive(Clone, Copy, Debug, PartialEq, Eq, Structural)]
pub enum HookMode {
    /// Software emulation in the generic network stack.
    Generic,
    /// Inside the network driver.
    Driver,
    /// Offloaded to the network card.
    Hardware,
}

/// What to do with a mode string that names no known mode.
#[derive(Clone, Copy, Debug, PartialEq, Eq, Structural)]
pub enum ModePolicy {
    /// Fall back to the generic mode, with a warning.
    Lenient,
    /// Refuse a non-empty unknown mode string as a configuration error.
    Strict,
}

/// The mode in effect for a run, and whether it was a fallback that deserves
/// a warning.
#[derive(Clone, Copy, Debug, PartialEq, Eq, Structural)]
pub struct ModeSelection {
    pub mode: HookMode,
    pub fallback: bool,
}

/// The mode chosen for a mode string, or `None` where the policy refuses it.
pub open spec fn select_mode_spec(mode: Option<Seq<char>>, policy: ModePolicy) -> Option<
    ModeSelection,
> {
    match mode {
        Some(s) if s == "driver"@ => Some(ModeSelection { mode: HookMode::Driver, fallback: false }),
        Some(s) if s == "hardware"@ => Some(
            ModeSelection { mode: HookMode::Hardware, fallback: false },
        ),
        Some(s) if policy == ModePolicy::Strict && s.len() > 0 => None,
        _ => Some(ModeSelection { mode: HookMode::Generic, fallback: true }),
    }
}

/// The view of an optional string argument.
pub open spec fn opt_view(s: Option<&str>) -> Option<Seq<char>> {
    match s {
        Some(t) => Some(t@),
        None => None,
    }
}

/// Whether two strings hold the same characters.
pub fn same_text(a: &str, b: &str) -> (r: bool)
    ensures
        r == (a@ == b@),
{
    let n = a.unicode_len();
    if n != b.unicode_len() {
        return false;
    }
    let mut i: usize = 0;
    while i < n
        invariant
            n == a@.len(),
            n == b@.len(),
            i <= n,
            a@.subrange(0, i as int) == b@.subrange(0, i as int),
        decreases n - i,
    {
        if a.get_char(i) != b.get_char(i) {
            assert(a@[i as int] != b@[i as int]);
            return false;
        }
        assert(a@.subrange(0, i + 1) == a@.subrange(0, i as int).push(a@[i as int]));
        assert(b@.subrange(0, i + 1) == b@.subrange(0, i as int).push(b@[i as int]));
        i = i + 1;
    }
    assert(a@ == a@.subrange(0, n as int));
    assert(b@ == b@.subrange(0, n as int));
    true
}

/// Chooses the hook mode from the configured mode string: `driver` and
/// `hardware` name their modes; anything else, or nothing, means the generic
/// mode with a warning, except that the strict policy refuses a non-empty
/// unknown string. `None` stands for that refusal.
pub fn select_mode(mode: Option<&str>, policy: ModePolicy) -> (r: Option<ModeSelection>)
    ensures
        r == select_mode_spec(opt_view(mode), policy),
{
    match mode {
        Some(s) => {
            if same_text(s, "driver") {
                Some(ModeSelection { mode: HookMode::Driver, fallback: false })
            } else if same_text(s, "hardware") {
                Some(ModeSelection { mode: HookMode::Hardware, fallback: false })
            } else if policy == ModePolicy::Strict && s.unicode_len() > 0 {
                None
            } else {
                Some(ModeSelection { mode: HookMode::Generic, fallback: true })
            }
        },
        None => Some(ModeSelection { mode: HookMode::Generic, fallback: true }),
    }
}

/// The attach-flag bits that aya gives each hook mode.
pub open spec fn xdp_flag_bits_spec(m: HookMode) -> u32 {
    match m {
        HookMode::Generic => 0,
        HookMode::Driver => 4,
        HookMode::Hardware => 8,
    }
}

/// Relies on aya's `XdpFlags::default()`: the empty flag set.
#[verifier::external_body]
fn default_flag_bits() -> (r: u32)
    ensures
        r == 0,
{
    aya::programs::XdpFlags::default().bits()
}

/// Relies on aya's `XdpFlags::DRV_MODE`, the kernel's `XDP_FLAGS_DRV_MODE` (1 << 2).
#[verifier::external_body]
fn driver_flag_bits() -> (r: u32)
    ensures
        r == 4,
{
    aya::programs::XdpFlags::DRV_MODE.bits()
}

/// Relies on aya's `XdpFlags::HW_MODE`, the kernel's `XDP_FLAGS_HW_MODE` (1 << 3).
#[verifier::external_body]
fn hardware_flag_bits() -> (r: u32)
    ensures
        r == 8,
{
    aya::programs::XdpFlags::HW_MODE.bits()
}

impl HookMode {
    /// The bits of the `XdpFlags` value that attaches a program in this mode.
    pub fn xdp_flag_bits(&self) -> (r: u32)
        ensures
            r == xdp_flag_bits_spec(*self),
    {
        match self {
            HookMode::Generic => default_flag_bits(),
            HookMode::Driver => driver_flag_bits(),
            HookMode::Hardware => hardware_flag_bits(),
        }
    }
}

} // verus!
