//! The gauge instrument: a named, described, unit-tagged recording handle.
//!
//! A gauge is requested from the provider slot after installation, and it
//! routes to whatever provider is active at that moment: creating it only
//! after installation is what gives it the installed provider rather than
//! none.

use vstd::prelude::*;
use crate::providers::{install_spec, opt_config_view, ProviderConfig, ProviderSlot};

verus! {

/// The configuration of a gauge instrument: the meter it is requested
/// from, and its name, description and unit.
pub struct GaugeConfig {
    pub meter_name: String,
    pub name: String,
    pub description: String,
    pub unit: String,
}

impl View for GaugeConfig {
    type V = (Seq<char>, Seq<char>, Seq<char>, Seq<char>);

    open spec fn view(&self) -> Self::V {
        (self.meter_name@, self.name@, self.description@, self.unit@)
    }
}

/// A gauge instrument handle: its configuration, and the provider it
/// routes to — the one active when it was created.
pub struct GaugeHandle {
    pub config: GaugeConfig,
    pub provider: Option<ProviderConfig>,
}

/// The name of the meter every gauge of this library is requested from.
pub open spec fn meter_name_spec() -> Seq<char> {
    "ponix-gateway"@
}

/// Creates the gauge instrument handle: named, described and unit-tagged
/// as given, requested from the fixed meter, and routed to the provider
/// active in the slot at creation.
pub fn guage(slot: &ProviderSlot, name: String, description: String, unit: String) -> (g:
    GaugeHandle)
    ensures
        g.config@ == (meter_name_spec(), name@, description@, unit@),
        opt_config_view(g.provider) == slot@,
{
    GaugeHandle {
        config: GaugeConfig {
            meter_name: "ponix-gateway".to_owned(),
            name,
            description,
            unit,
        },
        provider: slot.active_config(),
    }
}

/// Installing two providers in sequence leaves the second one as the
/// target of any gauge created afterward: a gauge routes to the provider
/// active at its creation, and after the two installations that is the
/// second configuration, whatever was installed before.
pub proof fn lemma_gauge_after_two_installs(
    initial: Option<(Seq<(Seq<char>, Seq<char>)>, int)>,
    first: (Seq<(Seq<char>, Seq<char>)>, int),
    second: (Seq<(Seq<char>, Seq<char>)>, int),
    gauge_provider: Option<(Seq<(Seq<char>, Seq<char>)>, int)>,
)
    requires
        gauge_provider == install_spec(install_spec(initial, first), second),
    ensures
        gauge_provider == Some(second),
{
}

} // verus!
