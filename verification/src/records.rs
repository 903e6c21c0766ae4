//! The typed document model: the records a parsed document is made of,
//! their spec-level views, and the builder methods used while a record is
//! being assembled.

use vstd::prelude::*;
use crate::collections::{Array, Dict};
use crate::enums::{
    AppType, DeploymentType, LayoutType, Provider, RoleHierarchy, Scope, SourceType, VisType,
};
use crate::scalars::{Integer, Text, Uri};

verus! {

/// A `major.minor.patch` version.
#[derive(Clone, Copy, PartialEq, Eq, Structural, Debug)]
pub struct Version {
    pub major: Integer,
    pub minor: Integer,
    pub patch: Integer,
}

impl Version {
    /// Builds a version from its three components.
    pub fn new(major: u32, minor: u32, patch: u32) -> (r: Version)
        ensures
            r == (Version { major: Integer(major), minor: Integer(minor), patch: Integer(patch) }),
    {
        Version { major: Integer(major), minor: Integer(minor), patch: Integer(patch) }
    }
}

/// The service metadata section.
#[derive(Clone, PartialEq, Debug)]
pub struct Service {
    pub version: Version,
    pub name: Text,
    pub scope: Scope,
}

/// Spec-level picture of a `Service`.
pub struct ServiceV {
    pub version: Version,
    pub name: Seq<char>,
    pub scope: Scope,
}

impl View for Service {
    type V = ServiceV;

    open spec fn view(&self) -> ServiceV {
        ServiceV { version: self.version, name: self.name@, scope: self.scope }
    }
}

/// The query a measurement runs: a type tag plus the selected field names.
#[derive(PartialEq, Debug)]
pub struct Query {
    pub typ: Text,
    pub select: Array<Text>,
}

/// Spec-level picture of a `Query`.
pub struct QueryV {
    pub typ: Seq<char>,
    pub select: Seq<Seq<char>>,
}

impl View for Query {
    type V = QueryV;

    open spec fn view(&self) -> QueryV {
        QueryV { typ: self.typ@, select: self.select@ }
    }
}

/// One data source: a named measurement.
#[derive(PartialEq, Debug)]
pub struct Measurement {
    pub name: Text,
    pub provider: Provider,
    pub typ: SourceType,
    pub uri: Uri,
    pub query: Query,
}

/// Spec-level picture of a `Measurement`.
pub struct MeasurementV {
    pub name: Seq<char>,
    pub provider: Provider,
    pub typ: SourceType,
    pub uri: Seq<char>,
    pub query: QueryV,
}

impl View for Measurement {
    type V = MeasurementV;

    open spec fn view(&self) -> MeasurementV {
        MeasurementV {
            name: self.name@,
            provider: self.provider,
            typ: self.typ,
            uri: self.uri@,
            query: self.query@,
        }
    }
}

/// The data sources section: measurements keyed by name.
#[derive(Debug, PartialEq)]
pub struct DataSources {
    pub measurements: Dict<Measurement>,
}

/// Spec-level picture of `DataSources`.
pub struct DataSourcesV {
    pub measurements: Map<Seq<char>, MeasurementV>,
}

impl View for DataSources {
    type V = DataSourcesV;

    open spec fn view(&self) -> DataSourcesV {
        DataSourcesV { measurements: self.measurements@ }
    }
}

impl DataSources {
    /// Inserts a measurement under its own name; a measurement of the same
    /// name is overwritten.
    pub fn add_measurement(&mut self, measurement: Measurement)
        requires
            old(self).measurements.wf(),
        ensures
            final(self)@.measurements == old(self)@.measurements.insert(
                measurement.name@,
                measurement@,
            ),
            final(self).measurements.wf(),
    {
        let key = measurement.name.clone();
        self.measurements.insert(key, measurement);
    }
}

/// A custom role: a name plus its place in the role hierarchy.
#[derive(Clone, PartialEq, Debug)]
pub struct Role {
    pub name: Text,
    pub hierarchy: RoleHierarchy,
}

/// Spec-level picture of a `Role`.
pub struct RoleV {
    pub name: Seq<char>,
    pub hierarchy: RoleHierarchy,
}

impl View for Role {
    type V = RoleV;

    open spec fn view(&self) -> RoleV {
        RoleV { name: self.name@, hierarchy: self.hierarchy }
    }
}

/// A role grant: one of the built-in roles, or a custom role carrying its
/// own hierarchy level.
#[derive(Clone, PartialEq, Debug)]
pub enum Roles {
    User,
    Superuser,
    Admin,
    Custom(Role),
}

/// Spec-level picture of a `Roles` value.
pub enum RolesV {
    User,
    Superuser,
    Admin,
    Custom(RoleV),
}

impl View for Roles {
    type V = RolesV;

    open spec fn view(&self) -> RolesV {
        match self {
            Roles::User => RolesV::User,
            Roles::Superuser => RolesV::Superuser,
            Roles::Admin => RolesV::Admin,
            Roles::Custom(role) => RolesV::Custom(role@),
        }
    }
}

/// One visualization: how one measurement's data is displayed.
#[derive(Debug, PartialEq)]
pub struct Vis {
    pub name: Text,
    pub typ: VisType,
    pub source: Text,
    pub data: Array<Text>,
    pub extra: Option<Dict<Text>>,
}

/// Spec-level picture of a `Vis`.
pub struct VisV {
    pub name: Seq<char>,
    pub typ: VisType,
    pub source: Seq<char>,
    pub data: Seq<Seq<char>>,
    pub extra: Option<Map<Seq<char>, Seq<char>>>,
}

impl View for Vis {
    type V = VisV;

    open spec fn view(&self) -> VisV {
        VisV {
            name: self.name@,
            typ: self.typ,
            source: self.source@,
            data: self.data@,
            extra: match &self.extra {
                Some(d) => Some(d@),
                None => None,
            },
        }
    }
}

/// The application section: front-end type, layout, role grants and the
/// visualizations keyed by name.
#[derive(Debug, PartialEq)]
pub struct Application {
    pub typ: AppType,
    pub layout: LayoutType,
    pub roles: Array<Roles>,
    pub visualizations: Dict<Vis>,
}

/// Spec-level picture of an `Application`.
pub struct ApplicationV {
    pub typ: AppType,
    pub layout: LayoutType,
    pub roles: Seq<RolesV>,
    pub visualizations: Map<Seq<char>, VisV>,
}

impl View for Application {
    type V = ApplicationV;

    open spec fn view(&self) -> ApplicationV {
        ApplicationV {
            typ: self.typ,
            layout: self.layout,
            roles: self.roles@,
            visualizations: self.visualizations@,
        }
    }
}

impl Application {
    /// Inserts a visualization under its own name; one of the same name is
    /// overwritten.
    pub fn add_visualization(&mut self, vis: Vis)
        requires
            old(self).visualizations.wf(),
        ensures
            final(self)@.visualizations == old(self)@.visualizations.insert(vis.name@, vis@),
            final(self).visualizations.wf(),
            final(self).typ == old(self).typ,
            final(self).layout == old(self).layout,
            final(self).roles == old(self).roles,
    {
        let key = vis.name.clone();
        self.visualizations.insert(key, vis);
    }
}

/// One deployment environment.
#[derive(Clone, PartialEq, Debug)]
pub struct DeploymentEnv {
    pub name: Text,
    pub uri: Uri,
    pub port: Integer,
    pub typ: DeploymentType,
}

/// Spec-level picture of a `DeploymentEnv`.
pub struct DeploymentEnvV {
    pub name: Seq<char>,
    pub uri: Seq<char>,
    pub port: Integer,
    pub typ: DeploymentType,
}

impl View for DeploymentEnv {
    type V = DeploymentEnvV;

    open spec fn view(&self) -> DeploymentEnvV {
        DeploymentEnvV { name: self.name@, uri: self.uri@, port: self.port, typ: self.typ }
    }
}

/// The deployment section: environments keyed by name.
#[derive(Debug, PartialEq)]
pub struct Deployment {
    pub env: Dict<DeploymentEnv>,
}

/// Spec-level picture of a `Deployment`.
pub struct DeploymentV {
    pub env: Map<Seq<char>, DeploymentEnvV>,
}

impl View for Deployment {
    type V = DeploymentV;

    open spec fn view(&self) -> DeploymentV {
        DeploymentV { env: self.env@ }
    }
}

/// The complete document: exactly the four required sections.
#[derive(Debug, PartialEq)]
pub struct SmartService {
    pub service: Service,
    pub data_sources: DataSources,
    pub application: Application,
    pub deployment: Deployment,
}

/// Spec-level picture of a `SmartService`.
pub struct SmartServiceV {
    pub service: ServiceV,
    pub data_sources: DataSourcesV,
    pub application: ApplicationV,
    pub deployment: DeploymentV,
}

impl View for SmartService {
    type V = SmartServiceV;

    open spec fn view(&self) -> SmartServiceV {
        SmartServiceV {
            service: self.service@,
            data_sources: self.data_sources@,
            application: self.application@,
            deployment: self.deployment@,
        }
    }
}

impl SmartService {
    /// Every key-unique mapping in the document really has unique keys.
    pub open spec fn wf(&self) -> bool {
        &&& self.data_sources.measurements.wf()
        &&& self.application.visualizations.wf()
        &&& self.deployment.env.wf()
        &&& forall|i: int|
            0 <= i < self.application.visualizations.0@.len() ==> match (
            #[trigger] self.application.visualizations.0@[i]).1.extra {
                Some(d) => d.wf(),
                None => true,
            }
    }
}

} // verus!
