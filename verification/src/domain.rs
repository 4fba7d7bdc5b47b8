//! The data model: DNS providers, saved entries, operations, their results,
//! and the two UI-visible state projections (`AppState`, `DnsState`).

use vstd::prelude::*;

verus! {

/// A user-saved, named pair of DNS server addresses.
#[derive(Debug, Clone, PartialEq)]
pub struct SavedDnsEntry {
    pub name: String,
    pub primary: String,
    pub secondary: String,
}

impl SavedDnsEntry {
    /// A copy with the same field contents, usable in proofs (the derived
    /// `Clone` carries no specification).
    pub fn duplicate(&self) -> (r: SavedDnsEntry)
        ensures
            r == *self,
    {
        SavedDnsEntry {
            name: self.name.clone(),
            primary: self.primary.clone(),
            secondary: self.secondary.clone(),
        }
    }
}

/// A selectable DNS resolver pair: five fixed well-known providers, a
/// `Custom` variant holding user-typed addresses, and a `Saved` variant
/// referencing a persisted entry by name.
#[derive(Debug, Clone, PartialEq)]
pub enum DnsProvider {
    Electro { primary: String, secondary: String },
    Radar { primary: String, secondary: String },
    Shekan { primary: String, secondary: String },
    Bogzar { primary: String, secondary: String },
    Quad9 { primary: String, secondary: String },
    Custom { primary: String, secondary: String },
    Saved { name: String, primary: String, secondary: String },
}

impl DnsProvider {
    /// The primary address of the pair, as a sequence of characters.
    pub open spec fn primary_view(self) -> Seq<char> {
        match self {
            DnsProvider::Electro { primary, .. } => primary@,
            DnsProvider::Radar { primary, .. } => primary@,
            DnsProvider::Shekan { primary, .. } => primary@,
            DnsProvider::Bogzar { primary, .. } => primary@,
            DnsProvider::Quad9 { primary, .. } => primary@,
            DnsProvider::Custom { primary, .. } => primary@,
            DnsProvider::Saved { primary, .. } => primary@,
        }
    }

    /// The secondary address of the pair, as a sequence of characters.
    pub open spec fn secondary_view(self) -> Seq<char> {
        match self {
            DnsProvider::Electro { secondary, .. } => secondary@,
            DnsProvider::Radar { secondary, .. } => secondary@,
            DnsProvider::Shekan { secondary, .. } => secondary@,
            DnsProvider::Bogzar { secondary, .. } => secondary@,
            DnsProvider::Quad9 { secondary, .. } => secondary@,
            DnsProvider::Custom { secondary, .. } => secondary@,
            DnsProvider::Saved { secondary, .. } => secondary@,
        }
    }

    /// The name under which the provider is shown in the selection list.
    pub open spec fn display_name_view(self) -> Seq<char> {
        match self {
            DnsProvider::Electro { .. } => "Electro"@,
            DnsProvider::Radar { .. } => "Radar"@,
            DnsProvider::Shekan { .. } => "Shekan"@,
            DnsProvider::Bogzar { .. } => "Bogzar"@,
            DnsProvider::Quad9 { .. } => "Quad9"@,
            DnsProvider::Custom { .. } => "Custom"@,
            DnsProvider::Saved { name, .. } => name@,
        }
    }

    /// Selection equality (see `selection_eq`), at the specification level.
    pub open spec fn spec_selection_eq(a: DnsProvider, b: DnsProvider) -> bool {
        match (a, b) {
            (DnsProvider::Electro { .. }, DnsProvider::Electro { .. }) => true,
            (DnsProvider::Radar { .. }, DnsProvider::Radar { .. }) => true,
            (DnsProvider::Shekan { .. }, DnsProvider::Shekan { .. }) => true,
            (DnsProvider::Bogzar { .. }, DnsProvider::Bogzar { .. }) => true,
            (DnsProvider::Quad9 { .. }, DnsProvider::Quad9 { .. }) => true,
            (DnsProvider::Custom { .. }, DnsProvider::Custom { .. }) => true,
            (
                DnsProvider::Saved { name: a_name, .. },
                DnsProvider::Saved { name: b_name, .. },
            ) => a_name@ == b_name@,
            _ => false,
        }
    }

    pub fn electro() -> (r: Self)
        ensures
            r matches DnsProvider::Electro { primary, secondary }
                && primary@ == "78.157.42.100"@ && secondary@ == "78.157.42.101"@,
    {
        Self::Electro {
            primary: "78.157.42.100".to_owned(),
            secondary: "78.157.42.101".to_owned(),
        }
    }

    pub fn radar() -> (r: Self)
        ensures
            r matches DnsProvider::Radar { primary, secondary }
                && primary@ == "10.202.10.10"@ && secondary@ == "10.202.10.11"@,
    {
        Self::Radar {
            primary: "10.202.10.10".to_owned(),
            secondary: "10.202.10.11".to_owned(),
        }
    }

    pub fn shekan() -> (r: Self)
        ensures
            r matches DnsProvider::Shekan { primary, secondary }
                && primary@ == "178.22.122.100"@ && secondary@ == "185.51.200.2"@,
    {
        Self::Shekan {
            primary: "178.22.122.100".to_owned(),
            secondary: "185.51.200.2".to_owned(),
        }
    }

    pub fn bogzar() -> (r: Self)
        ensures
            r matches DnsProvider::Bogzar { primary, secondary }
                && primary@ == "185.55.226.26"@ && secondary@ == "185.55.225.25"@,
    {
        Self::Bogzar {
            primary: "185.55.226.26".to_owned(),
            secondary: "185.55.225.25".to_owned(),
        }
    }

    pub fn quad9() -> (r: Self)
        ensures
            r matches DnsProvider::Quad9 { primary, secondary }
                && primary@ == "9.9.9.9"@ && secondary@ == "149.112.112.112"@,
    {
        Self::Quad9 {
            primary: "9.9.9.9".to_owned(),
            secondary: "149.112.112.112".to_owned(),
        }
    }

    pub fn custom(primary: String, secondary: String) -> (r: Self)
        ensures
            r == (DnsProvider::Custom { primary, secondary }),
    {
        Self::Custom { primary, secondary }
    }

    pub fn saved(name: String, primary: String, secondary: String) -> (r: Self)
        ensures
            r == (DnsProvider::Saved { name, primary, secondary }),
    {
        Self::Saved { name, primary, secondary }
    }

    /// The primary and secondary addresses of the selected provider.
    pub fn get_servers(&self) -> (r: (String, String))
        ensures
            r.0@ == self.primary_view(),
            r.1@ == self.secondary_view(),
    {
        match self {
            DnsProvider::Electro { primary, secondary }
            | DnsProvider::Radar { primary, secondary }
            | DnsProvider::Shekan { primary, secondary }
            | DnsProvider::Bogzar { primary, secondary }
            | DnsProvider::Quad9 { primary, secondary }
            | DnsProvider::Custom { primary, secondary }
            | DnsProvider::Saved { primary, secondary, .. } => {
                (primary.clone(), secondary.clone())
            },
        }
    }

    /// The name under which the provider is shown in the selection list.
    pub fn display_name(&self) -> (r: String)
        ensures
            r@ == self.display_name_view(),
    {
        match self {
            DnsProvider::Electro { .. } => "Electro".to_owned(),
            DnsProvider::Radar { .. } => "Radar".to_owned(),
            DnsProvider::Shekan { .. } => "Shekan".to_owned(),
            DnsProvider::Bogzar { .. } => "Bogzar".to_owned(),
            DnsProvider::Quad9 { .. } => "Quad9".to_owned(),
            DnsProvider::Custom { .. } => "Custom".to_owned(),
            DnsProvider::Saved { name, .. } => name.clone(),
        }
    }

    /// Whether two providers denote the same selectable option: `Saved`
    /// variants are equal iff their names match, and any two instances of
    /// another variant are equal regardless of their addresses, so that
    /// transient address edits do not change which option is selected.
    pub fn selection_eq(a: &DnsProvider, b: &DnsProvider) -> (r: bool)
        ensures
            r == Self::spec_selection_eq(*a, *b),
    {
        match (a, b) {
            (DnsProvider::Electro { .. }, DnsProvider::Electro { .. }) => true,
            (DnsProvider::Radar { .. }, DnsProvider::Radar { .. }) => true,
            (DnsProvider::Shekan { .. }, DnsProvider::Shekan { .. }) => true,
            (DnsProvider::Bogzar { .. }, DnsProvider::Bogzar { .. }) => true,
            (DnsProvider::Quad9 { .. }, DnsProvider::Quad9 { .. }) => true,
            (DnsProvider::Custom { .. }, DnsProvider::Custom { .. }) => true,
            (
                DnsProvider::Saved { name: a_name, .. },
                DnsProvider::Saved { name: b_name, .. },
            ) => *a_name == *b_name,
            _ => false,
        }
    }
}

impl Default for DnsProvider {
    /// The fixed default provider, used as the fallback selection.
    fn default() -> (r: Self)
        ensures
            r matches DnsProvider::Electro { primary, secondary }
                && primary@ == "78.157.42.100"@ && secondary@ == "78.157.42.101"@,
    {
        DnsProvider::electro()
    }
}

/// A user intent handed to the operation dispatcher.
#[derive(Debug, Clone, PartialEq)]
pub enum DnsOperation {
    Apply(DnsProvider),
    Clear,
    Test,
}

/// The single outcome a dispatched operation reports back.
#[derive(Debug, Clone, PartialEq)]
pub enum OperationResult {
    Success(String),
    Error(String),
    Warning(String),
}

/// The UI-visible phase of the application: `Processing` while an operation
/// is outstanding, and a terminal display state otherwise.
#[derive(Debug, Clone, PartialEq)]
pub enum AppState {
    Idle,
    Processing,
    Success(String),
    Error(String),
    Warning(String),
}

impl AppState {
    /// Whether the state is one of the three terminal display states.
    pub open spec fn is_terminal(self) -> bool {
        match self {
            AppState::Success(_) => true,
            AppState::Error(_) => true,
            AppState::Warning(_) => true,
            AppState::Idle => false,
            AppState::Processing => false,
        }
    }
}

impl Default for AppState {
    fn default() -> (r: Self)
        ensures
            r == AppState::Idle,
    {
        AppState::Idle
    }
}

/// The derived, read-only projection of the adapter's DNS configuration.
#[derive(Debug, Clone, PartialEq)]
pub enum DnsState {
    Static(Vec<String>),
    Dhcp,
    Unconfigured,
}

impl Default for DnsState {
    fn default() -> (r: Self)
        ensures
            r == DnsState::Unconfigured,
    {
        DnsState::Unconfigured
    }
}

} // verus!
