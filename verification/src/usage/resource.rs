//! What identifies the reporting process, and nothing more.
//!
//! Deliberately absent: the deployment's URN, whose environment is a label the
//! operator chose.

use crate::ident::Uuid;
use crate::usage::attribute;
use crate::usage::attribute::{
    Attribute, AttributeKey, AttributeView, DeviceClass, Platform, ValueView, Version,
};
use vstd::prelude::*;

verus! {

/// Which Pessimal is reporting.
#[derive(Debug, Clone, Copy, PartialEq, Eq, Structural)]
pub enum Service {
    Client,
    Agent,
}

impl Service {
    /// The `service.name` value, as characters.
    pub open spec fn as_text(self) -> Seq<char> {
        match self {
            Service::Client => "pessimal-client"@,
            Service::Agent => "pessimal-agent"@,
        }
    }

    /// The `service.name` value.
    pub fn as_str(self) -> (r: &'static str)
        ensures
            r@ == self.as_text(),
    {
        match self {
            Service::Client => "pessimal-client",
            Service::Agent => "pessimal-agent",
        }
    }
}

/// The resource attached to every span from one process.
#[derive(Debug, Clone, PartialEq, Eq)]
pub struct UsageResource {
    pub service: Service,
    /// `None` when the host could not give a version in the accepted shape. A
    /// missing attribute is better than a guessed one.
    pub version: Option<Version>,
    pub build: Option<u32>,
    pub instance: Uuid,
    pub platform: Platform,
    pub device_class: DeviceClass,
    pub os_version: Option<Version>,
}

/// The characters of a version that may be missing.
pub open spec fn version_text(version: Option<Version>) -> Option<Seq<char>> {
    match version {
        Some(version) => Some(version@),
        None => None,
    }
}

/// A version under a key, where there is one.
pub open spec fn version_entry(key: AttributeKey, version: Option<Version>) -> Seq<AttributeView> {
    match version {
        Some(version) => seq![AttributeView { key, value: ValueView::Version(version@) }],
        None => Seq::empty(),
    }
}

/// A count under a key, where there is one.
pub open spec fn count_entry(key: AttributeKey, count: Option<u32>) -> Seq<AttributeView> {
    match count {
        Some(count) => seq![attribute::counted(key, count)],
        None => Seq::empty(),
    }
}

impl UsageResource {
    /// What the resource says of its process: always the service, the instance,
    /// the platform and the device class, then what is known of versions.
    pub open spec fn entries(self) -> Seq<AttributeView> {
        seq![
            attribute::word(AttributeKey::ServiceName, self.service.as_text()),
            AttributeView {
                key: AttributeKey::ServiceInstanceId,
                value: ValueView::Identifier(self.instance.bytes@),
            },
            attribute::word(AttributeKey::Platform, self.platform.as_text()),
            attribute::word(AttributeKey::DeviceClass, self.device_class.as_text()),
        ] + version_entry(AttributeKey::ServiceVersion, self.version) + count_entry(
            AttributeKey::AppBuild,
            self.build,
        ) + version_entry(AttributeKey::OsVersion, self.os_version)
    }

    /// `version` and `os_version` are raw strings from the host and are validated,
    /// not trusted: anything that is not a dotted numeric version is dropped.
    ///
    /// `instance` should be freshly minted, per launch, and never persisted.
    pub fn new(
        service: Service,
        platform: Platform,
        device_class: DeviceClass,
        instance: Uuid,
        version: &str,
        build: Option<u32>,
        os_version: &str,
    ) -> (r: UsageResource)
        ensures
            r.service == service,
            version_text(r.version) == attribute::version_of(version@, 3),
            r.build == build,
            r.instance == instance,
            r.platform == platform,
            r.device_class == device_class,
            version_text(r.os_version) == attribute::version_of(os_version@, 2),
    {
        UsageResource {
            service,
            version: Version::app(version),
            build,
            instance,
            platform,
            device_class,
            os_version: Version::os(os_version),
        }
    }

    /// Which Pessimal is reporting.
    pub fn service(&self) -> (r: Service)
        ensures
            r == self.service,
    {
        self.service
    }

    /// Which process is reporting.
    pub fn instance(&self) -> (r: Uuid)
        ensures
            r == self.instance,
    {
        self.instance
    }

    /// What the resource says of its process.
    pub fn attributes(&self) -> (r: Vec<Attribute>)
        ensures
            attribute::attribute_views(r@) == self.entries(),
    {
        let mut out: Vec<Attribute> = Vec::new();
        out.push(Attribute::enumerated(AttributeKey::ServiceName, self.service.as_str()));
        out.push(Attribute::identifier(AttributeKey::ServiceInstanceId, self.instance));
        out.push(Attribute::enumerated(AttributeKey::Platform, self.platform.as_str()));
        out.push(Attribute::enumerated(AttributeKey::DeviceClass, self.device_class.as_str()));
        if let Some(version) = &self.version {
            out.push(Attribute::version(AttributeKey::ServiceVersion, version.clone()));
        }
        if let Some(build) = self.build {
            out.push(Attribute::count(AttributeKey::AppBuild, build));
        }
        if let Some(os) = &self.os_version {
            out.push(Attribute::version(AttributeKey::OsVersion, os.clone()));
        }
        assert(attribute::attribute_views(out@) =~= self.entries());
        out
    }
}

/// A resource says which service, instance, platform and device class reports, and its
/// versions and build where they are known: each under its own key, and nothing else.
pub proof fn resources_say_who_reports(resource: UsageResource)
    ensures
        ({
            let entries = resource.entries();
            let version = if resource.version is Some {
                1int
            } else {
                0
            };
            let build = if resource.build is Some {
                1int
            } else {
                0
            };
            let os = if resource.os_version is Some {
                1int
            } else {
                0
            };
            &&& entries.len() == 4 + version + build + os
            &&& entries.contains(
                AttributeView {
                    key: AttributeKey::ServiceName,
                    value: ValueView::Enumerated(
                        if resource.service == Service::Client {
                            "pessimal-client"@
                        } else {
                            "pessimal-agent"@
                        },
                    ),
                },
            )
            &&& entries.contains(
                AttributeView {
                    key: AttributeKey::ServiceInstanceId,
                    value: ValueView::Identifier(resource.instance.bytes@),
                },
            )
            &&& entries.contains(
                AttributeView {
                    key: AttributeKey::Platform,
                    value: ValueView::Enumerated(resource.platform.as_text()),
                },
            )
            &&& entries.contains(
                AttributeView {
                    key: AttributeKey::DeviceClass,
                    value: ValueView::Enumerated(resource.device_class.as_text()),
                },
            )
            &&& resource.version is Some ==> entries.contains(
                AttributeView {
                    key: AttributeKey::ServiceVersion,
                    value: ValueView::Version(resource.version->0@),
                },
            )
            &&& resource.build is Some ==> entries.contains(
                AttributeView {
                    key: AttributeKey::AppBuild,
                    value: ValueView::Count(resource.build->0),
                },
            )
            &&& resource.os_version is Some ==> entries.contains(
                AttributeView {
                    key: AttributeKey::OsVersion,
                    value: ValueView::Version(resource.os_version->0@),
                },
            )
        }),
{
    let entries = resource.entries();
    let version = if resource.version is Some {
        1int
    } else {
        0
    };
    let build = if resource.build is Some {
        1int
    } else {
        0
    };
    assert(entries[0].key == AttributeKey::ServiceName);
    assert(entries[1].key == AttributeKey::ServiceInstanceId);
    assert(entries[2].key == AttributeKey::Platform);
    assert(entries[3].key == AttributeKey::DeviceClass);
    if resource.version is Some {
        assert(entries[4].key == AttributeKey::ServiceVersion);
    }
    if resource.build is Some {
        assert(entries[4 + version].key == AttributeKey::AppBuild);
    }
    if resource.os_version is Some {
        assert(entries[4 + version + build].key == AttributeKey::OsVersion);
    }
}

/// The text of a version that may be missing is its own.
pub proof fn version_texts_are_their_own(version: Option<Version>)
    ensures
        version_text(version) is Some <==> version is Some,
        version is Some ==> version_text(version) == Some(version->0@),
{
}

} // verus!
