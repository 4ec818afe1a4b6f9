use std::collections::HashMap;
use vstd::prelude::*;

verus! {

/// The kind of package a manifest describes.
#[derive(Debug, Clone, Copy, PartialEq, Eq, Structural)]
pub enum PackageType {
    KiroAgent,
    McpServer,
    Context,
    Skill,
    KiroPowers,
    KiroSteering,
    AgentsMd,
}

impl Default for PackageType {
    /// The first kind, `kiro-agent`.
    fn default() -> (r: PackageType)
        ensures
            r == PackageType::KiroAgent,
    {
        PackageType::KiroAgent
    }
}

/// Where an mcp-server package can be obtained from.
#[derive(Debug, Clone, Copy, PartialEq, Eq, Structural)]
pub enum SourceType {
    Npm,
    Pypi,
    Git,
    McpRegistry,
}

/// One way of obtaining an mcp-server package.
#[derive(Debug, Clone)]
pub struct PackageSource {
    pub source_type: SourceType,
    pub package: Option<String>,
    pub version: Option<String>,
    pub registry: Option<String>,
    pub repository: Option<String>,
    pub git_ref: Option<String>,
    pub subfolder: Option<String>,
    pub install_command: Option<String>,
    pub executable: Option<String>,
    pub preferred: Option<bool>,
}

/// A parsed package manifest. Optional fields hold `None` when absent,
/// never an empty string, so that absent and empty stay apart.
#[derive(Debug, Clone)]
pub struct ARAManifest {
    pub name: String,
    pub version: String,
    pub description: String,
    pub author: String,
    pub tags: Vec<String>,
    pub package_type: PackageType,
    pub files: Option<Vec<String>>,
    pub license: Option<String>,
    pub homepage: Option<String>,
    pub repository: Option<String>,
    pub dependencies: HashMap<String, String>,
    pub sources: Option<Vec<PackageSource>>,
}

impl Default for ARAManifest {
    /// Empty strings and lists, the default package kind, no optional field.
    fn default() -> (r: ARAManifest)
        ensures
            r.name@.len() == 0,
            r.version@.len() == 0,
            r.description@.len() == 0,
            r.author@.len() == 0,
            r.tags@.len() == 0,
            r.package_type == PackageType::KiroAgent,
            r.files is None,
            r.license is None,
            r.homepage is None,
            r.repository is None,
            r.dependencies@ == Map::<String, String>::empty(),
            r.sources is None,
    {
        ARAManifest {
            name: String::new(),
            version: String::new(),
            description: String::new(),
            author: String::new(),
            tags: Vec::new(),
            package_type: PackageType::default(),
            files: None,
            license: None,
            homepage: None,
            repository: None,
            dependencies: HashMap::new(),
            sources: None,
        }
    }
}

} // verus!
