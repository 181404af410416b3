//! Response shapes documented by the API description: each mirrors the JSON
//! body a handler returns.

use vstd::prelude::*;

use crate::effective_context::EffectiveContext;

verus! {

/// The API description document.
pub struct ApiDoc;

pub struct HealthResponse {
    pub status: String,
}

pub struct ContextEnvelope {
    pub context: EffectiveContext,
}

pub struct ValidateEnvelope {
    pub user_id: u128,
    pub username: String,
    pub is_admin: bool,
    pub tier: i32,
}

pub struct GroupSchema {
    pub id: u128,
    pub name: String,
    pub description: Option<String>,
    pub kind: Option<String>,
    pub can_create_template: bool,
    pub can_manage_users: bool,
    pub can_manage_group_instances: bool,
    pub can_manage_docker: bool,
    pub can_manage_registry: bool,
    pub can_view_monitoring: bool,
    pub max_instances: Option<i32>,
    pub template_ids: Vec<u128>,
}

pub struct GroupListEnvelope {
    pub groups: Vec<GroupSchema>,
}

pub struct RegistryUrlEnvelope {
    pub url: Option<String>,
}

pub struct DockerContainerSchema {
    pub id: String,
    pub names: Vec<String>,
    pub image: String,
    pub status: String,
    pub state: String,
}

pub struct DockerContainersEnvelope {
    pub containers: Vec<DockerContainerSchema>,
}

} // verus!
