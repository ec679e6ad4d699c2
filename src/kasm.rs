use vstd::prelude::*;
use crate::text::join;

verus! {

/// Body of a workspace creation request.
#[derive(Debug)]
pub struct WorkspaceRequest {
    pub image_id: String,
    pub enable_sharing: Option<bool>,
    pub enable_persistent_profile: Option<bool>,
}

impl WorkspaceRequest {
    /// A request for a shared workspace with a persistent profile.
    pub fn for_image(image_id: &String) -> (r: WorkspaceRequest)
        ensures
            r.image_id@ == image_id@,
            r.enable_sharing == Some(true),
            r.enable_persistent_profile == Some(true),
    {
        WorkspaceRequest {
            image_id: image_id.clone(),
            enable_sharing: Some(true),
            enable_persistent_profile: Some(true),
        }
    }
}

/// What the provisioner answers to a creation request.
#[derive(Debug)]
pub struct WorkspaceResponse {
    pub workspace_id: String,
    pub session_token: String,
    pub url: String,
    pub kasm_url: Option<String>,
}

/// What the provisioner reports of a workspace.
#[derive(Debug)]
pub struct WorkspaceStatus {
    pub workspace_id: String,
    pub status: String,
    pub operational_status: String,
}

/// Where the workspace provisioner is and how to authenticate to it.
#[derive(Debug)]
pub struct KasmConfig {
    pub base_url: String,
    pub api_key: String,
    pub api_secret: String,
}

pub open spec fn or_default(v: Option<String>, d: Seq<char>) -> Seq<char> {
    match v {
        Some(s) => s@,
        None => d,
    }
}

fn value_or(v: Option<String>, d: &str) -> (r: String)
    ensures
        r@ == or_default(v, d@),
{
    match v {
        Some(s) => s,
        None => String::from_str(d),
    }
}

impl KasmConfig {
    /// The configuration from the given settings, each missing one replaced
    /// by its development default.
    pub fn from_values(
        base_url: Option<String>,
        api_key: Option<String>,
        api_secret: Option<String>,
    ) -> (r: KasmConfig)
        ensures
            r.base_url@ == or_default(base_url, "https://localhost:443"@),
            r.api_key@ == or_default(api_key, "mock_api_key"@),
            r.api_secret@ == or_default(api_secret, "mock_api_secret"@),
    {
        KasmConfig {
            base_url: value_or(base_url, "https://localhost:443"),
            api_key: value_or(api_key, "mock_api_key"),
            api_secret: value_or(api_secret, "mock_api_secret"),
        }
    }

    pub fn request_workspace_url(&self) -> (r: String)
        ensures
            r@ == self.base_url@ + "/api/public/request_kasm"@,
    {
        join(self.base_url.as_str(), "/api/public/request_kasm")
    }

    pub fn destroy_workspace_url(&self, workspace_id: &String) -> (r: String)
        ensures
            r@ == self.base_url@ + "/api/public/destroy_kasm/"@ + workspace_id@,
    {
        let mut s = join(self.base_url.as_str(), "/api/public/destroy_kasm/");
        s.append(workspace_id.as_str());
        s
    }

    pub fn workspace_status_url(&self, workspace_id: &String) -> (r: String)
        ensures
            r@ == self.base_url@ + "/api/public/get_kasm/"@ + workspace_id@,
    {
        let mut s = join(self.base_url.as_str(), "/api/public/get_kasm/");
        s.append(workspace_id.as_str());
        s
    }

    pub fn health_url(&self) -> (r: String)
        ensures
            r@ == self.base_url@ + "/api/public/health"@,
    {
        join(self.base_url.as_str(), "/api/public/health")
    }

    /// Value of the `Authorization` header.
    pub fn authorization(&self) -> (r: String)
        ensures
            r@ == "Bearer "@ + self.api_key@,
    {
        join("Bearer ", self.api_key.as_str())
    }
}

} // verus!
