//! What the API shows of the server's configuration.

use vstd::prelude::*;
use vstd::string::*;

use crate::text::texts;

verus! {

/// The security part of a configuration.
#[derive(Debug)]
pub struct SecuritySection {
    pub file_read_prefixes: Vec<String>,
    pub file_write_prefixes: Vec<String>,
    pub network_allowlist: Vec<String>,
    pub allow_shell: bool,
    pub allow_git: bool,
}

/// A security part as contracts see it.
pub struct SecuritySectionView {
    pub file_read_prefixes: Seq<Seq<char>>,
    pub file_write_prefixes: Seq<Seq<char>>,
    pub network_allowlist: Seq<Seq<char>>,
    pub allow_shell: bool,
    pub allow_git: bool,
}

impl View for SecuritySection {
    type V = SecuritySectionView;

    open spec fn view(&self) -> SecuritySectionView {
        SecuritySectionView {
            file_read_prefixes: texts(self.file_read_prefixes@),
            file_write_prefixes: texts(self.file_write_prefixes@),
            network_allowlist: texts(self.network_allowlist@),
            allow_shell: self.allow_shell,
            allow_git: self.allow_git,
        }
    }
}

/// A configuration: its TOML text, which can be submitted again, and its
/// security part.
#[derive(Debug)]
pub struct ConfigDocument {
    pub toml: String,
    pub security: SecuritySection,
}

/// A configuration as contracts see it.
pub struct ConfigDocumentView {
    pub toml: Seq<char>,
    pub security: SecuritySectionView,
}

impl View for ConfigDocument {
    type V = ConfigDocumentView;

    open spec fn view(&self) -> ConfigDocumentView {
        ConfigDocumentView { toml: self.toml@, security: self.security@ }
    }
}

/// A configured plugin, enabled or not.
#[derive(Debug)]
pub struct PluginManifest {
    pub name: String,
    pub version: String,
    pub class: String,
    pub enabled: bool,
    pub capabilities: String,
}

/// A plugin as contracts see it.
pub struct PluginManifestView {
    pub name: Seq<char>,
    pub version: Seq<char>,
    pub class: Seq<char>,
    pub enabled: bool,
    pub capabilities: Seq<char>,
}

impl View for PluginManifest {
    type V = PluginManifestView;

    open spec fn view(&self) -> PluginManifestView {
        PluginManifestView {
            name: self.name@,
            version: self.version@,
            class: self.class@,
            enabled: self.enabled,
            capabilities: self.capabilities@,
        }
    }
}

/// The plugins as contracts see them.
pub open spec fn manifest_views(plugins: Seq<PluginManifest>) -> Seq<PluginManifestView> {
    plugins.map_values(|plugin: PluginManifest| plugin@)
}

} // verus!
