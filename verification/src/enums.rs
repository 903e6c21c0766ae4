//! The closed-set enumerated kinds. Each coerces from the exact keyword of
//! one of its variants; every kind here declares a default, so a record
//! field of the kind falls back to that default on an unrecognized keyword
//! and when the field is absent.

use vstd::prelude::*;
use crate::strutil::str_eq_str;

verus! {

/// The domain category of a service. Default: `Service`.
#[derive(Clone, Copy, PartialEq, Eq, Structural, Debug)]
pub enum Scope {
    Service,
    Industry,
    Manifacturing,
    Education,
    Healthcare,
    SocialPrograms,
    Government,
    Energy,
    Water,
    Environment,
    Transportation,
    Communication,
    PublicSafety,
    UrbanPlanning,
    Infrastructure,
}

/// The exact-keyword coercion of `Scope`.
pub open spec fn spec_scope_keyword(s: Seq<char>) -> Option<Scope> {
    if s == "Service"@ {
        Some(Scope::Service)
    } else if s == "Industry"@ {
        Some(Scope::Industry)
    } else if s == "Manifacturing"@ {
        Some(Scope::Manifacturing)
    } else if s == "Education"@ {
        Some(Scope::Education)
    } else if s == "Healthcare"@ {
        Some(Scope::Healthcare)
    } else if s == "SocialPrograms"@ {
        Some(Scope::SocialPrograms)
    } else if s == "Government"@ {
        Some(Scope::Government)
    } else if s == "Energy"@ {
        Some(Scope::Energy)
    } else if s == "Water"@ {
        Some(Scope::Water)
    } else if s == "Environment"@ {
        Some(Scope::Environment)
    } else if s == "Transportation"@ {
        Some(Scope::Transportation)
    } else if s == "Communication"@ {
        Some(Scope::Communication)
    } else if s == "PublicSafety"@ {
        Some(Scope::PublicSafety)
    } else if s == "UrbanPlanning"@ {
        Some(Scope::UrbanPlanning)
    } else if s == "Infrastructure"@ {
        Some(Scope::Infrastructure)
    } else {
        None
    }
}

/// Coerces an exact variant keyword to a `Scope`.
pub fn scope_from_keyword(s: &str) -> (r: Option<Scope>)
    ensures
        r == spec_scope_keyword(s@),
{
    if str_eq_str(s, "Service") {
        Some(Scope::Service)
    } else if str_eq_str(s, "Industry") {
        Some(Scope::Industry)
    } else if str_eq_str(s, "Manifacturing") {
        Some(Scope::Manifacturing)
    } else if str_eq_str(s, "Education") {
        Some(Scope::Education)
    } else if str_eq_str(s, "Healthcare") {
        Some(Scope::Healthcare)
    } else if str_eq_str(s, "SocialPrograms") {
        Some(Scope::SocialPrograms)
    } else if str_eq_str(s, "Government") {
        Some(Scope::Government)
    } else if str_eq_str(s, "Energy") {
        Some(Scope::Energy)
    } else if str_eq_str(s, "Water") {
        Some(Scope::Water)
    } else if str_eq_str(s, "Environment") {
        Some(Scope::Environment)
    } else if str_eq_str(s, "Transportation") {
        Some(Scope::Transportation)
    } else if str_eq_str(s, "Communication") {
        Some(Scope::Communication)
    } else if str_eq_str(s, "PublicSafety") {
        Some(Scope::PublicSafety)
    } else if str_eq_str(s, "UrbanPlanning") {
        Some(Scope::UrbanPlanning)
    } else if str_eq_str(s, "Infrastructure") {
        Some(Scope::Infrastructure)
    } else {
        None
    }
}

/// The provider of a measurement's data. Default: `Unknown`.
#[derive(Clone, Copy, PartialEq, Eq, Structural, Debug)]
pub enum Provider {
    Fiware,
    Dataskop,
    Fotec,
    Unknown,
}

/// The exact-keyword coercion of `Provider`.
pub open spec fn spec_provider_keyword(s: Seq<char>) -> Option<Provider> {
    if s == "Fiware"@ {
        Some(Provider::Fiware)
    } else if s == "Dataskop"@ {
        Some(Provider::Dataskop)
    } else if s == "Fotec"@ {
        Some(Provider::Fotec)
    } else if s == "Unknown"@ {
        Some(Provider::Unknown)
    } else {
        None
    }
}

/// Coerces an exact variant keyword to a `Provider`.
pub fn provider_from_keyword(s: &str) -> (r: Option<Provider>)
    ensures
        r == spec_provider_keyword(s@),
{
    if str_eq_str(s, "Fiware") {
        Some(Provider::Fiware)
    } else if str_eq_str(s, "Dataskop") {
        Some(Provider::Dataskop)
    } else if str_eq_str(s, "Fotec") {
        Some(Provider::Fotec)
    } else if str_eq_str(s, "Unknown") {
        Some(Provider::Unknown)
    } else {
        None
    }
}

/// What kind of entity a measurement observes. Default: `Other`.
#[derive(Clone, Copy, PartialEq, Eq, Structural, Debug)]
pub enum SourceType {
    Sensor,
    Actuator,
    Device,
    Application,
    Person,
    Vehicle,
    Animal,
    Robot,
    Other,
}

/// The exact-keyword coercion of `SourceType`.
pub open spec fn spec_source_type_keyword(s: Seq<char>) -> Option<SourceType> {
    if s == "Sensor"@ {
        Some(SourceType::Sensor)
    } else if s == "Actuator"@ {
        Some(SourceType::Actuator)
    } else if s == "Device"@ {
        Some(SourceType::Device)
    } else if s == "Application"@ {
        Some(SourceType::Application)
    } else if s == "Person"@ {
        Some(SourceType::Person)
    } else if s == "Vehicle"@ {
        Some(SourceType::Vehicle)
    } else if s == "Animal"@ {
        Some(SourceType::Animal)
    } else if s == "Robot"@ {
        Some(SourceType::Robot)
    } else if s == "Other"@ {
        Some(SourceType::Other)
    } else {
        None
    }
}

/// Coerces an exact variant keyword to a `SourceType`.
pub fn source_type_from_keyword(s: &str) -> (r: Option<SourceType>)
    ensures
        r == spec_source_type_keyword(s@),
{
    if str_eq_str(s, "Sensor") {
        Some(SourceType::Sensor)
    } else if str_eq_str(s, "Actuator") {
        Some(SourceType::Actuator)
    } else if str_eq_str(s, "Device") {
        Some(SourceType::Device)
    } else if str_eq_str(s, "Application") {
        Some(SourceType::Application)
    } else if str_eq_str(s, "Person") {
        Some(SourceType::Person)
    } else if str_eq_str(s, "Vehicle") {
        Some(SourceType::Vehicle)
    } else if str_eq_str(s, "Animal") {
        Some(SourceType::Animal)
    } else if str_eq_str(s, "Robot") {
        Some(SourceType::Robot)
    } else if str_eq_str(s, "Other") {
        Some(SourceType::Other)
    } else {
        None
    }
}

/// The privilege level a custom role carries. Default: `User`.
#[derive(Clone, Copy, PartialEq, Eq, Structural, Debug)]
pub enum RoleHierarchy {
    User,
    Superuser,
    Admin,
}

/// The exact-keyword coercion of `RoleHierarchy`.
pub open spec fn spec_role_hierarchy_keyword(s: Seq<char>) -> Option<RoleHierarchy> {
    if s == "User"@ {
        Some(RoleHierarchy::User)
    } else if s == "Superuser"@ {
        Some(RoleHierarchy::Superuser)
    } else if s == "Admin"@ {
        Some(RoleHierarchy::Admin)
    } else {
        None
    }
}

/// Coerces an exact variant keyword to a `RoleHierarchy`.
pub fn role_hierarchy_from_keyword(s: &str) -> (r: Option<RoleHierarchy>)
    ensures
        r == spec_role_hierarchy_keyword(s@),
{
    if str_eq_str(s, "User") {
        Some(RoleHierarchy::User)
    } else if str_eq_str(s, "Superuser") {
        Some(RoleHierarchy::Superuser)
    } else if str_eq_str(s, "Admin") {
        Some(RoleHierarchy::Admin)
    } else {
        None
    }
}

/// How a visualization displays its data. Default: `Other`.
///
/// The map display's keyword in source text is `Map`.
#[derive(Clone, Copy, PartialEq, Eq, Structural, Debug)]
pub enum VisType {
    Line,
    Bar,
    Pie,
    Table,
    MapView,
    Other,
}

/// The exact-keyword coercion of `VisType`.
pub open spec fn spec_vis_type_keyword(s: Seq<char>) -> Option<VisType> {
    if s == "Line"@ {
        Some(VisType::Line)
    } else if s == "Bar"@ {
        Some(VisType::Bar)
    } else if s == "Pie"@ {
        Some(VisType::Pie)
    } else if s == "Table"@ {
        Some(VisType::Table)
    } else if s == "Map"@ {
        Some(VisType::MapView)
    } else if s == "Other"@ {
        Some(VisType::Other)
    } else {
        None
    }
}

/// Coerces an exact variant keyword to a `VisType`.
pub fn vis_type_from_keyword(s: &str) -> (r: Option<VisType>)
    ensures
        r == spec_vis_type_keyword(s@),
{
    if str_eq_str(s, "Line") {
        Some(VisType::Line)
    } else if str_eq_str(s, "Bar") {
        Some(VisType::Bar)
    } else if str_eq_str(s, "Pie") {
        Some(VisType::Pie)
    } else if str_eq_str(s, "Table") {
        Some(VisType::Table)
    } else if str_eq_str(s, "Map") {
        Some(VisType::MapView)
    } else if str_eq_str(s, "Other") {
        Some(VisType::Other)
    } else {
        None
    }
}

/// The kind of application front end. Default: `Web`.
#[derive(Clone, Copy, PartialEq, Eq, Structural, Debug)]
pub enum AppType {
    Web,
    Mobile,
    Desktop,
}

/// The exact-keyword coercion of `AppType`.
pub open spec fn spec_app_type_keyword(s: Seq<char>) -> Option<AppType> {
    if s == "Web"@ {
        Some(AppType::Web)
    } else if s == "Mobile"@ {
        Some(AppType::Mobile)
    } else if s == "Desktop"@ {
        Some(AppType::Desktop)
    } else {
        None
    }
}

/// Coerces an exact variant keyword to an `AppType`.
pub fn app_type_from_keyword(s: &str) -> (r: Option<AppType>)
    ensures
        r == spec_app_type_keyword(s@),
{
    if str_eq_str(s, "Web") {
        Some(AppType::Web)
    } else if str_eq_str(s, "Mobile") {
        Some(AppType::Mobile)
    } else if str_eq_str(s, "Desktop") {
        Some(AppType::Desktop)
    } else {
        None
    }
}

/// The application's layout style. Default: `SinglePage`.
#[derive(Clone, Copy, PartialEq, Eq, Structural, Debug)]
pub enum LayoutType {
    SinglePage,
    Pwa,
}

/// The exact-keyword coercion of `LayoutType`.
pub open spec fn spec_layout_type_keyword(s: Seq<char>) -> Option<LayoutType> {
    if s == "SinglePage"@ {
        Some(LayoutType::SinglePage)
    } else if s == "Pwa"@ {
        Some(LayoutType::Pwa)
    } else {
        None
    }
}

/// Coerces an exact variant keyword to a `LayoutType`.
pub fn layout_type_from_keyword(s: &str) -> (r: Option<LayoutType>)
    ensures
        r == spec_layout_type_keyword(s@),
{
    if str_eq_str(s, "SinglePage") {
        Some(LayoutType::SinglePage)
    } else if str_eq_str(s, "Pwa") {
        Some(LayoutType::Pwa)
    } else {
        None
    }
}

/// The platform a deployment environment targets. Default: `Docker`.
#[derive(Clone, Copy, PartialEq, Eq, Structural, Debug)]
pub enum DeploymentType {
    Docker,
    Kubernetes,
    Swarm,
    Mesos,
    Nomad,
    Other,
}

/// The exact-keyword coercion of `DeploymentType`.
pub open spec fn spec_deployment_type_keyword(s: Seq<char>) -> Option<DeploymentType> {
    if s == "Docker"@ {
        Some(DeploymentType::Docker)
    } else if s == "Kubernetes"@ {
        Some(DeploymentType::Kubernetes)
    } else if s == "Swarm"@ {
        Some(DeploymentType::Swarm)
    } else if s == "Mesos"@ {
        Some(DeploymentType::Mesos)
    } else if s == "Nomad"@ {
        Some(DeploymentType::Nomad)
    } else if s == "Other"@ {
        Some(DeploymentType::Other)
    } else {
        None
    }
}

/// Coerces an exact variant keyword to a `DeploymentType`.
pub fn deployment_type_from_keyword(s: &str) -> (r: Option<DeploymentType>)
    ensures
        r == spec_deployment_type_keyword(s@),
{
    if str_eq_str(s, "Docker") {
        Some(DeploymentType::Docker)
    } else if str_eq_str(s, "Kubernetes") {
        Some(DeploymentType::Kubernetes)
    } else if str_eq_str(s, "Swarm") {
        Some(DeploymentType::Swarm)
    } else if str_eq_str(s, "Mesos") {
        Some(DeploymentType::Mesos)
    } else if str_eq_str(s, "Nomad") {
        Some(DeploymentType::Nomad)
    } else if str_eq_str(s, "Other") {
        Some(DeploymentType::Other)
    } else {
        None
    }
}

} // verus!
