//! The resource descriptor and the meter provider pipeline.
//!
//! `ResourceDescriptor` is the immutable set of key/value attributes that
//! tags every metric of the process. `ProviderSlot` models the process-wide
//! meter provider singleton as an explicit value, so that installation —
//! last write wins — and the routing of gauges created afterward are stated
//! and proved. The real exporter, reader, provider and global installation
//! are opentelemetry calls behind trusted wrappers; the verified pipeline
//! decides what happens around them.

use vstd::prelude::*;

verus! {

/// One key/value attribute of a resource descriptor.
pub struct Attribute {
    pub key: String,
    pub value: String,
}

impl View for Attribute {
    type V = (Seq<char>, Seq<char>);

    open spec fn view(&self) -> Self::V {
        (self.key@, self.value@)
    }
}

impl Clone for Attribute {
    fn clone(&self) -> (r: Self)
        ensures
            r == self,
    {
        Attribute { key: self.key.clone(), value: self.value.clone() }
    }
}

/// The immutable, ordered set of key/value attributes describing the
/// emitting process.
pub struct ResourceDescriptor {
    pub attributes: Vec<Attribute>,
}

impl View for ResourceDescriptor {
    type V = Seq<(Seq<char>, Seq<char>)>;

    open spec fn view(&self) -> Self::V {
        self.attributes@.map_values(|a: Attribute| a@)
    }
}

impl Clone for ResourceDescriptor {
    fn clone(&self) -> (r: Self)
        ensures
            r@ == self@,
    {
        let mut attributes: Vec<Attribute> = Vec::new();
        let mut i: usize = 0;
        while i < self.attributes.len()
            invariant
                i <= self.attributes@.len(),
                attributes@ == self.attributes@.take(i as int),
            decreases self.attributes@.len() - i,
        {
            attributes.push(self.attributes[i].clone());
            proof {
                assert(attributes@ =~= self.attributes@.take(i + 1));
            }
            i = i + 1;
        }
        proof {
            assert(self.attributes@.take(self.attributes@.len() as int) =~= self.attributes@);
        }
        ResourceDescriptor { attributes }
    }
}

/// The content a resource descriptor built for `service_name` must have:
/// the single attribute `service.name` mapped to that name.
pub open spec fn resource_spec(service_name: Seq<char>) -> Seq<(Seq<char>, Seq<char>)> {
    seq![("service.name"@, service_name)]
}

/// Builds the resource descriptor for a service: the key `service.name`
/// bound to the given name, accepted as-is, with no validation and no
/// failure path.
pub fn init_resource(service_name: String) -> (r: ResourceDescriptor)
    ensures
        r@ == resource_spec(service_name@),
{
    let mut attributes: Vec<Attribute> = Vec::new();
    attributes.push(Attribute { key: "service.name".to_owned(), value: service_name });
    let r = ResourceDescriptor { attributes };
    proof {
        assert(r@ =~= resource_spec(r.attributes@[0].value@));
    }
    r
}

/// Resource descriptor construction is pure: the content is a function of
/// the service name alone, so equal names give descriptors with identical
/// content.
pub proof fn lemma_init_resource_pure(name_a: Seq<char>, name_b: Seq<char>)
    requires
        name_a == name_b,
    ensures
        resource_spec(name_a) == resource_spec(name_b),
{
}

/// The configuration a meter provider is built from: its resource
/// descriptor and the periodic reader's flush interval.
pub struct ProviderConfig {
    pub resource: ResourceDescriptor,
    pub flush_interval_secs: u64,
}

impl View for ProviderConfig {
    type V = (Seq<(Seq<char>, Seq<char>)>, int);

    open spec fn view(&self) -> Self::V {
        (self.resource@, self.flush_interval_secs as int)
    }
}

impl Clone for ProviderConfig {
    fn clone(&self) -> (r: Self)
        ensures
            r@ == self@,
    {
        ProviderConfig {
            resource: self.resource.clone(),
            flush_interval_secs: self.flush_interval_secs,
        }
    }
}

/// The view of an optional provider configuration.
pub open spec fn opt_config_view(c: Option<ProviderConfig>) -> Option<
    (Seq<(Seq<char>, Seq<char>)>, int),
> {
    match c {
        Some(config) => Some(config@),
        None => None,
    }
}

/// What installing a configuration leaves in the provider slot: the new
/// configuration, whatever was there before.
pub open spec fn install_spec(
    previous: Option<(Seq<(Seq<char>, Seq<char>)>, int)>,
    config: (Seq<(Seq<char>, Seq<char>)>, int),
) -> Option<(Seq<(Seq<char>, Seq<char>)>, int)> {
    Some(config)
}

/// Provider installation is last-write-wins: after installing two
/// configurations in sequence, the second one is the active configuration,
/// whatever was installed before.
pub proof fn lemma_install_last_write_wins(
    initial: Option<(Seq<(Seq<char>, Seq<char>)>, int)>,
    first: (Seq<(Seq<char>, Seq<char>)>, int),
    second: (Seq<(Seq<char>, Seq<char>)>, int),
)
    ensures
        install_spec(install_spec(initial, first), second) == Some(second),
{
}

/// The process-wide meter provider singleton, as an explicit value: holds
/// the configuration of the provider installed last, if any.
pub struct ProviderSlot {
    pub active: Option<ProviderConfig>,
}

impl View for ProviderSlot {
    type V = Option<(Seq<(Seq<char>, Seq<char>)>, int)>;

    open spec fn view(&self) -> Self::V {
        opt_config_view(self.active)
    }
}

impl ProviderSlot {
    /// A fresh slot: no provider installed yet.
    pub fn new() -> (r: Self)
        ensures
            r@ is None,
    {
        ProviderSlot { active: None }
    }

    /// Installs a configuration: unconditional, last write wins.
    pub fn install(&mut self, config: ProviderConfig)
        ensures
            final(self)@ == install_spec(old(self)@, config@),
    {
        self.active = Some(config);
    }

    /// A copy of the active configuration.
    pub fn active_config(&self) -> (r: Option<ProviderConfig>)
        ensures
            opt_config_view(r) == self@,
    {
        match &self.active {
            Some(config) => Some(config.clone()),
            None => None,
        }
    }
}

/// The fatal initialization failure: the exporter could not be built.
pub struct InitError {
    pub message: String,
}

/// The flush interval of the periodic reader, in seconds.
pub const FLUSH_INTERVAL_SECS: u64 = 1;

#[verifier::external_type_specification]
#[verifier::external_body]
pub struct ExKeyValue(opentelemetry::KeyValue);

#[verifier::external_type_specification]
#[verifier::external_body]
pub struct ExResource(opentelemetry_sdk::Resource);

#[verifier::external_type_specification]
#[verifier::external_body]
pub struct ExMetricExporter(opentelemetry_otlp::MetricExporter);

#[verifier::external_type_specification]
#[verifier::external_body]
pub struct ExPeriodicReader(opentelemetry_sdk::metrics::PeriodicReader);

#[verifier::external_type_specification]
#[verifier::external_body]
pub struct ExSdkMeterProvider(opentelemetry_sdk::metrics::SdkMeterProvider);

/// Relies on opentelemetry::KeyValue::new: pairs the key with the value.
#[verifier::external_body]
fn make_key_value(key: String, value: String) -> opentelemetry::KeyValue {
    opentelemetry::KeyValue::new(key, value)
}

/// Relies on opentelemetry_sdk::Resource::new: builds a resource holding
/// the given attributes, de-duplicated by key.
#[verifier::external_body]
fn make_resource(attributes: Vec<opentelemetry::KeyValue>) -> opentelemetry_sdk::Resource {
    opentelemetry_sdk::Resource::new(attributes)
}

/// Relies on opentelemetry_otlp::MetricExporter's builder with the tonic
/// transport: constructs the push exporter toward the collector endpoint,
/// and fails exactly when the transport cannot be configured.
#[verifier::external_body]
fn build_exporter() -> Result<opentelemetry_otlp::MetricExporter, String> {
    match opentelemetry_otlp::MetricExporter::builder().with_tonic().build() {
        Ok(exporter) => Ok(exporter),
        Err(error) => Err(format!("{}", error)),
    }
}

/// Relies on opentelemetry_sdk::metrics::PeriodicReader's builder: wraps
/// the exporter in a reader that flushes it on the given interval, on the
/// Tokio runtime.
#[verifier::external_body]
fn build_reader(
    exporter: opentelemetry_otlp::MetricExporter,
    interval_secs: u64,
) -> opentelemetry_sdk::metrics::PeriodicReader {
    opentelemetry_sdk::metrics::PeriodicReader::builder(exporter, opentelemetry_sdk::runtime::Tokio)
        .with_interval(core::time::Duration::from_secs(interval_secs))
        .build()
}

/// Relies on opentelemetry_sdk::metrics::SdkMeterProvider's builder:
/// combines the reader and the resource into a provider.
#[verifier::external_body]
fn build_provider(
    reader: opentelemetry_sdk::metrics::PeriodicReader,
    resource: opentelemetry_sdk::Resource,
) -> opentelemetry_sdk::metrics::SdkMeterProvider {
    opentelemetry_sdk::metrics::SdkMeterProvider::builder()
        .with_reader(reader)
        .with_resource(resource)
        .build()
}

/// Relies on opentelemetry::global::set_meter_provider: replaces the
/// process-wide meter provider, unconditionally.
#[verifier::external_body]
fn set_global_meter_provider(provider: opentelemetry_sdk::metrics::SdkMeterProvider) {
    opentelemetry::global::set_meter_provider(provider);
}

/// Converts a resource descriptor to the opentelemetry resource holding the
/// same attributes.
fn to_otel_resource(descriptor: &ResourceDescriptor) -> opentelemetry_sdk::Resource {
    let mut pairs: Vec<opentelemetry::KeyValue> = Vec::new();
    let mut i: usize = 0;
    while i < descriptor.attributes.len()
        decreases descriptor.attributes@.len() - i,
    {
        let attribute = &descriptor.attributes[i];
        pairs.push(make_key_value(attribute.key.clone(), attribute.value.clone()));
        i = i + 1;
    }
    make_resource(pairs)
}

/// Finishes initialization from the outcome of exporter construction: on
/// success wraps the exporter in the periodic reader, builds the provider
/// with the resource, installs it process-wide and records it in the slot;
/// on failure installs nothing and surfaces the failure, so that startup
/// does not proceed.
pub fn install_meter_provider(
    slot: &mut ProviderSlot,
    resource: &ResourceDescriptor,
    exporter: Result<opentelemetry_otlp::MetricExporter, String>,
) -> (r: Result<(), InitError>)
    ensures
        exporter is Ok ==> r is Ok && final(slot)@ == install_spec(
            old(slot)@,
            (resource@, FLUSH_INTERVAL_SECS as int),
        ),
        exporter matches Err(m) ==> (r matches Err(e) && e.message@ == m@ && final(slot)@ == old(
            slot,
        )@),
{
    match exporter {
        Ok(exp) => {
            let otel_resource = to_otel_resource(resource);
            let reader = build_reader(exp, FLUSH_INTERVAL_SECS);
            let provider = build_provider(reader, otel_resource);
            set_global_meter_provider(provider);
            slot.install(
                ProviderConfig {
                    resource: resource.clone(),
                    flush_interval_secs: FLUSH_INTERVAL_SECS,
                },
            );
            Ok(())
        },
        Err(message) => Err(InitError { message }),
    }
}

/// Builds the exporter, and on success installs the full provider pipeline;
/// whether construction succeeds is the transport's decision, and whichever
/// way it goes, the slot ends as stated: the new configuration on success,
/// untouched on failure.
pub fn init_meter_provider(slot: &mut ProviderSlot, resource: &ResourceDescriptor) -> (r: Result<
    (),
    InitError,
>)
    ensures
        r is Ok ==> final(slot)@ == install_spec(
            old(slot)@,
            (resource@, FLUSH_INTERVAL_SECS as int),
        ),
        r is Err ==> final(slot)@ == old(slot)@,
{
    let exporter = build_exporter();
    install_meter_provider(slot, resource, exporter)
}

} // verus!
