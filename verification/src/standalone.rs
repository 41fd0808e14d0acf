//! The image descriptor for a standalone Oxia container: image coordinates,
//! log verbosity, the launch command, the exposed ports and the readiness
//! condition. Pure data assembly; nothing here performs I/O.
use vstd::prelude::*;
use vstd::string::StringExecFns;

verus! {

/// Container-side TCP port on which the store serves client RPC traffic.
pub const EXTERNAL_PORT: u16 = 6648;

/// Container-side TCP port declared for inter-node traffic; unused in
/// standalone mode but still exposed.
pub const INTERNAL_PORT: u16 = 6649;

/// Mathematical view of an image descriptor: its three configurable strings.
pub struct DescriptorView {
    pub image_name: Seq<char>,
    pub tag: Seq<char>,
    pub log_level: Seq<char>,
}

/// Describes how to launch the standalone Oxia container. Constructed with
/// defaults, optionally updated through the chained builder calls, then read
/// by the fixture runner at start time.
#[derive(Debug, Clone)]
pub struct OxiaStandalone {
    pub image_name: String,
    pub tag: String,
    pub log_level: String,
}

impl View for OxiaStandalone {
    type V = DescriptorView;

    open spec fn view(&self) -> DescriptorView {
        DescriptorView {
            image_name: self.image_name@,
            tag: self.tag@,
            log_level: self.log_level@,
        }
    }
}

/// The descriptor every construction starts from.
pub open spec fn default_descriptor() -> DescriptorView {
    DescriptorView { image_name: "oxia/oxia"@, tag: "latest"@, log_level: "info"@ }
}

impl Default for OxiaStandalone {
    fn default() -> (d: Self)
        ensures
            d@ == default_descriptor(),
    {
        OxiaStandalone {
            image_name: String::from_str("oxia/oxia"),
            tag: String::from_str("latest"),
            log_level: String::from_str("info"),
        }
    }
}

/// The substring whose appearance on the container's standard output signals
/// that the store's network listener is active.
pub open spec fn ready_message() -> Seq<char> {
    "Started Grpc server"@
}

/// A readiness condition the fixture runner waits for before handing the
/// started container back to the driver.
pub enum ReadyCondition {
    /// Wait until the given substring appears on the container's stdout.
    MessageOnStdout(String),
}

impl ReadyCondition {
    /// The substring this condition waits for.
    pub open spec fn spec_message(&self) -> Seq<char> {
        match self {
            ReadyCondition::MessageOnStdout(m) => m@,
        }
    }

    pub fn message(&self) -> (r: &str)
        ensures
            r@ == self.spec_message(),
    {
        match self {
            ReadyCondition::MessageOnStdout(m) => m.as_str(),
        }
    }
}

/// The launch command: the executable followed by its arguments, binding the
/// descriptor to the standalone run mode and the configured log level.
pub open spec fn spec_launch_command(log_level: Seq<char>) -> Seq<Seq<char>> {
    seq!["bin/oxia"@, "standalone"@, "--log-level"@, log_level]
}

/// The descriptor after replacing the image name; the other fields are kept.
pub open spec fn spec_with_image(d: DescriptorView, image_name: Seq<char>) -> DescriptorView {
    DescriptorView { image_name, ..d }
}

/// The descriptor after replacing the tag; the other fields are kept.
pub open spec fn spec_with_tag(d: DescriptorView, tag: Seq<char>) -> DescriptorView {
    DescriptorView { tag, ..d }
}

/// The descriptor after replacing the log level; the other fields are kept.
pub open spec fn spec_with_log_level(d: DescriptorView, log_level: Seq<char>) -> DescriptorView {
    DescriptorView { log_level, ..d }
}

impl OxiaStandalone {
    pub fn with_image(self, image_name: String) -> (d: Self)
        ensures
            d@ == spec_with_image(self@, image_name@),
    {
        let mut d = self;
        d.image_name = image_name;
        d
    }

    pub fn with_tag(self, tag: String) -> (d: Self)
        ensures
            d@ == spec_with_tag(self@, tag@),
    {
        let mut d = self;
        d.tag = tag;
        d
    }

    pub fn with_log_level(self, log_level: String) -> (d: Self)
        ensures
            d@ == spec_with_log_level(self@, log_level@),
    {
        let mut d = self;
        d.log_level = log_level;
        d
    }

    pub fn name(&self) -> (r: &str)
        ensures
            r@ == self@.image_name,
    {
        self.image_name.as_str()
    }

    pub fn tag(&self) -> (r: &str)
        ensures
            r@ == self@.tag,
    {
        self.tag.as_str()
    }

    /// The single readiness condition: wait for the exact readiness substring
    /// on the container's standard output.
    pub fn ready_conditions(&self) -> (r: Vec<ReadyCondition>)
        ensures
            r@.len() == 1,
            r@[0].spec_message() == ready_message(),
    {
        let mut v: Vec<ReadyCondition> = Vec::new();
        v.push(ReadyCondition::MessageOnStdout(String::from_str("Started Grpc server")));
        v
    }

    /// The ordered launch command derived from the descriptor's log level.
    pub fn cmd(&self) -> (r: Vec<String>)
        ensures
            r.deep_view() == spec_launch_command(self@.log_level),
    {
        let mut v: Vec<String> = Vec::new();
        v.push(String::from_str("bin/oxia"));
        v.push(String::from_str("standalone"));
        v.push(String::from_str("--log-level"));
        v.push(self.log_level.clone());
        proof {
            assert(v.deep_view() =~= spec_launch_command(self@.log_level));
        }
        v
    }

    /// The fixed pair of declared container ports: the client-facing port
    /// first, then the inter-node port.
    pub fn expose_ports(&self) -> (r: Vec<u16>)
        ensures
            r@ == seq![EXTERNAL_PORT, INTERNAL_PORT],
    {
        let mut v: Vec<u16> = Vec::new();
        v.push(EXTERNAL_PORT);
        v.push(INTERNAL_PORT);
        proof {
            assert(v@ =~= seq![EXTERNAL_PORT, INTERNAL_PORT]);
        }
        v
    }
}

/// Law: each builder call sets exactly its own field, so later calls never
/// disturb what an earlier call set, and a full chain yields exactly the
/// three supplied strings.
pub proof fn lemma_builder_calls_independent(
    d: DescriptorView,
    image_name: Seq<char>,
    tag: Seq<char>,
    log_level: Seq<char>,
)
    ensures
        spec_with_image(d, image_name).image_name == image_name,
        spec_with_image(d, image_name).tag == d.tag,
        spec_with_image(d, image_name).log_level == d.log_level,
        spec_with_tag(d, tag).tag == tag,
        spec_with_tag(d, tag).image_name == d.image_name,
        spec_with_tag(d, tag).log_level == d.log_level,
        spec_with_log_level(d, log_level).log_level == log_level,
        spec_with_log_level(d, log_level).image_name == d.image_name,
        spec_with_log_level(d, log_level).tag == d.tag,
        spec_with_log_level(spec_with_tag(spec_with_image(d, image_name), tag), log_level) == (
        DescriptorView { image_name, tag, log_level }),
{
}

} // verus!
