use vstd::prelude::*;
use vstd::string::StrSliceExecFns;
use vstd::string::StringExecFns;

verus! {

/// Loaded in every game mode.
pub const ALL: u32 = 0x00;
/// Loaded in freeplay.
pub const FREEPLAY: u32 = 0x01;
/// Loaded in custom training.
pub const CUSTOM_TRAINING: u32 = 0x02;
/// Loaded while spectating.
pub const SPECTATOR: u32 = 0x04;
/// Loaded in bot matches.
pub const BOTAI: u32 = 0x08;
/// Loaded in replays.
pub const REPLAY: u32 = 0x10;
/// Runs on its own thread.
pub const THREADED: u32 = 0x20;
/// Unloads on its own thread.
pub const THREADEDUNLOAD: u32 = 0x40;

/// The number of named flags, each a single bit from the lowest up.
pub const FLAG_COUNT: u32 = 7;

/// The game modes and threading options that a plugin declares to the host.
#[derive(Clone, Copy, Debug, PartialEq, Eq, Hash, Structural)]
pub struct PluginType {
    pub bits: u32,
}

/// The name of flag `k`, the one whose bit is `1 << k`.
pub open spec fn flag_name(k: u32) -> Seq<char> {
    if k == 0 {
        "FREEPLAY"@
    } else if k == 1 {
        "CUSTOM_TRAINING"@
    } else if k == 2 {
        "SPECTATOR"@
    } else if k == 3 {
        "BOTAI"@
    } else if k == 4 {
        "REPLAY"@
    } else if k == 5 {
        "THREADED"@
    } else {
        "THREADEDUNLOAD"@
    }
}

/// Whether bit `k` of `bits` is set.
pub open spec fn has_bit(bits: u32, k: u32) -> bool {
    bits & (1u32 << k) != 0
}

/// The named flags among the first `k` that `bits` sets, each as
/// `PLUGINTYPE_<name>`, joined by `|`, lowest bit first.
pub open spec fn listed(bits: u32, k: u32) -> Seq<char>
    decreases k,
{
    if k == 0 || k > FLAG_COUNT {
        Seq::empty()
    } else if has_bit(bits, (k - 1) as u32) {
        let prev = listed(bits, (k - 1) as u32);
        if prev.len() == 0 {
            "PLUGINTYPE_"@ + flag_name((k - 1) as u32)
        } else {
            prev + "|"@ + "PLUGINTYPE_"@ + flag_name((k - 1) as u32)
        }
    } else {
        listed(bits, (k - 1) as u32)
    }
}

/// How a set of flags is written in the host's plugin declaration: the named flags
/// that it sets, or `0` when it sets none of them.
pub open spec fn flags_text(bits: u32) -> Seq<char> {
    if listed(bits, FLAG_COUNT).len() == 0 {
        "0"@
    } else {
        listed(bits, FLAG_COUNT)
    }
}

fn name_of(k: u32) -> (r: &'static str)
    requires
        k < FLAG_COUNT,
    ensures
        r@ == flag_name(k),
{
    if k == 0 {
        "FREEPLAY"
    } else if k == 1 {
        "CUSTOM_TRAINING"
    } else if k == 2 {
        "SPECTATOR"
    } else if k == 3 {
        "BOTAI"
    } else if k == 4 {
        "REPLAY"
    } else if k == 5 {
        "THREADED"
    } else {
        "THREADEDUNLOAD"
    }
}

impl PluginType {
    /// The flags that `bits` holds, bits without a name included.
    pub fn from_bits_retain(bits: u32) -> (r: PluginType)
        ensures
            r.bits == bits,
    {
        PluginType { bits }
    }

    /// The raw bits.
    pub fn bits(&self) -> (r: u32)
        ensures
            r == self.bits,
    {
        self.bits
    }

    /// Whether every flag of `other` is set here.
    pub fn contains(&self, other: PluginType) -> (r: bool)
        ensures
            r == (self.bits & other.bits == other.bits),
    {
        self.bits & other.bits == other.bits
    }

    /// The flags as the host's plugin declaration writes them, such as
    /// `PLUGINTYPE_FREEPLAY|PLUGINTYPE_REPLAY`, or `0` when no named flag is set.
    pub fn to_string(&self) -> (r: String)
        ensures
            r@ == flags_text(self.bits),
    {
        let mut r = String::new();
        let mut k: u32 = 0;
        while k < FLAG_COUNT
            invariant
                k <= FLAG_COUNT,
                r@ == listed(self.bits, k),
            decreases FLAG_COUNT - k,
        {
            if self.bits & (1u32 << k) != 0 {
                if r.as_str().unicode_len() > 0 {
                    r.append("|");
                }
                r.append("PLUGINTYPE_");
                r.append(name_of(k));
                assert(r@ =~= listed(self.bits, (k + 1) as u32));
            }
            k = k + 1;
        }
        if r.as_str().unicode_len() == 0 {
            String::from_str("0")
        } else {
            r
        }
    }
}

} // verus!
