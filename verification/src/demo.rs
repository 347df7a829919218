//! The demo mode: which of the two meshes the frame loop draws from.

use vstd::prelude::*;

verus! {

/// Which of the two equivalent draw strategies is active.
#[derive(Clone, Copy, Debug, PartialEq, Eq, Structural)]
pub enum Demo {
    /// Draw from the mesh built from the bare vertex stream.
    Direct,
    /// Draw from the mesh built from the same vertices plus an index sequence.
    Indexed,
}

impl Demo {
    /// The other variant.
    pub open spec fn toggled(self) -> Demo {
        match self {
            Demo::Direct => Demo::Indexed,
            Demo::Indexed => Demo::Direct,
        }
    }

    /// The mode reached from `self` by `n` toggles.
    pub open spec fn after_toggles(self, n: nat) -> Demo
        decreases n,
    {
        if n == 0 {
            self
        } else {
            self.after_toggles((n - 1) as nat).toggled()
        }
    }

    /// The text that announces this mode.
    pub open spec fn notice_text(self) -> Seq<char> {
        match self {
            Demo::Direct => "now rendering Direct"@,
            Demo::Indexed => "now rendering Indexed"@,
        }
    }

    /// Switches to the other variant.
    pub fn toggle(self) -> (next: Demo)
        ensures
            next == self.toggled(),
            next != self,
    {
        match self {
            Demo::Direct => Demo::Indexed,
            Demo::Indexed => Demo::Direct,
        }
    }

    /// The human-readable notice that announces this mode.
    pub fn notice(self) -> (text: &'static str)
        ensures
            text@ == self.notice_text(),
    {
        match self {
            Demo::Direct => "now rendering Direct",
            Demo::Indexed => "now rendering Indexed",
        }
    }
}

/// The mode strictly alternates: a toggle always changes it, and a second
/// toggle brings it back.
pub proof fn lemma_toggle_alternates(mode: Demo)
    ensures
        mode.toggled() != mode,
        mode.toggled().toggled() == mode,
{
}

/// After `n` toggles the mode is the starting one if `n` is even and the
/// other one if `n` is odd.
pub proof fn lemma_after_toggles(mode: Demo, n: nat)
    ensures
        mode.after_toggles(n) == if n % 2 == 0 {
            mode
        } else {
            mode.toggled()
        },
    decreases n,
{
    if n > 0 {
        lemma_after_toggles(mode, (n - 1) as nat);
    }
}

} // verus!
