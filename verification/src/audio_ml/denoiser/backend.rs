//! Which denoiser is used.
use crate::text::same;
use vstd::prelude::*;

verus! {

/// Which denoiser is used.
#[derive(Clone, Debug, PartialEq, Eq, Structural)]
pub enum DenoiserBackend {
    /// Two-stage LSTM; light, 16 kHz.
    Dtln,
    /// DeepFilterNet3; better, 48 kHz.
    DeepFilterNet3,
    /// RNNoise; light, 48 kHz.
    RNNoise,
}

impl Default for DenoiserBackend {
    fn default() -> (b: Self)
        ensures
            b == DenoiserBackend::RNNoise,
    {
        DenoiserBackend::RNNoise
    }
}

/// The denoiser that a name stands for; RNNoise where it stands for none.
pub open spec fn backend_named(name: Seq<char>) -> DenoiserBackend {
    if name == "dfn3"@ {
        DenoiserBackend::DeepFilterNet3
    } else if name == "rnnoise"@ {
        DenoiserBackend::RNNoise
    } else if name == "dtln"@ {
        DenoiserBackend::Dtln
    } else {
        DenoiserBackend::RNNoise
    }
}

impl DenoiserBackend {
    /// The denoiser that a name stands for; RNNoise where it stands for none.
    pub fn from_name(name: &str) -> (b: Self)
        ensures
            b == backend_named(name@),
    {
        if same(name, "dfn3") {
            DenoiserBackend::DeepFilterNet3
        } else if same(name, "rnnoise") {
            DenoiserBackend::RNNoise
        } else if same(name, "dtln") {
            DenoiserBackend::Dtln
        } else {
            DenoiserBackend::default()
        }
    }
}

/// Only the names of the two other denoisers stand for them; every other name stands for RNNoise.
pub proof fn law_names_stand_for_denoisers(name: Seq<char>)
    ensures
        backend_named(name) is DeepFilterNet3 <==> name == "dfn3"@,
        backend_named(name) is Dtln <==> name == "dtln"@,
        backend_named(name) is RNNoise <==> name != "dfn3"@ && name != "dtln"@,
{
    reveal_strlit("dfn3");
    reveal_strlit("dtln");
    reveal_strlit("rnnoise");
    assert("dfn3"@[1] == 'f' && "dtln"@[1] == 't' && "rnnoise"@[1] == 'n');
}

} // verus!
