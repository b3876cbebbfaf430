use vstd::prelude::*;

verus! {

/// Which provider a stored event came from.
#[derive(Debug, Clone, Copy, PartialEq, Eq, Structural)]
pub enum DataSource {
    ProviderB,
    ProviderA,
}

impl DataSource {
    /// The name the database stores for the source.
    pub open spec fn name(self) -> Seq<char> {
        match self {
            DataSource::ProviderB => "provider_b"@,
            DataSource::ProviderA => "provider_a"@,
        }
    }

    /// The name the database stores for the source.
    pub fn as_str(&self) -> (s: &'static str)
        ensures
            s@ == self.name(),
    {
        match self {
            DataSource::ProviderB => "provider_b",
            DataSource::ProviderA => "provider_a",
        }
    }
}

/// Different sources are stored under different names.
pub proof fn lemma_source_names_distinct(a: DataSource, b: DataSource)
    requires
        a != b,
    ensures
        a.name() != b.name(),
{
    reveal_strlit("provider_b");
    reveal_strlit("provider_a");
    assert("provider_b"@[9] != "provider_a"@[9]);
}

} // verus!
