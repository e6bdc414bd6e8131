use vstd::prelude::*;

verus! {

/// The manifest format to create.
#[derive(Clone, Copy, Debug, PartialEq, Eq, Structural)]
pub enum ManifestFormat {
    Pixi,
    Pyproject,
    Mojoproject,
}

/// Source control management attributes for the workspace.
#[derive(Clone, Copy, Debug, PartialEq, Eq, Structural)]
pub enum GitAttributes {
    Github,
    Gitlab,
    Codeberg,
}

/// The attributes file written for GitHub and Codeberg.
pub open spec fn linguist_attributes() -> Seq<char> {
    "# SCM syntax highlighting & preventing 3-way merges\npixi.lock merge=binary linguist-language=YAML linguist-generated=true\n"@
}

/// The attributes file written for GitLab.
pub open spec fn gitlab_attributes() -> Seq<char> {
    "# GitLab syntax highlighting & preventing 3-way merges\npixi.lock merge=binary gitlab-language=yaml gitlab-generated=true\n"@
}

impl GitAttributes {
    /// The attributes file for this forge.
    pub open spec fn template_spec(&self) -> Seq<char> {
        match self {
            GitAttributes::Gitlab => gitlab_attributes(),
            _ => linguist_attributes(),
        }
    }

    /// The text of the attributes file for this forge.
    pub fn template(&self) -> (r: &'static str)
        ensures
            r@ == self.template_spec(),
    {
        match self {
            GitAttributes::Github | GitAttributes::Codeberg => {
                "# SCM syntax highlighting & preventing 3-way merges\npixi.lock merge=binary linguist-language=YAML linguist-generated=true\n"
            },
            GitAttributes::Gitlab => {
                "# GitLab syntax highlighting & preventing 3-way merges\npixi.lock merge=binary gitlab-language=yaml gitlab-generated=true\n"
            },
        }
    }
}

/// What a new workspace is created with.
#[derive(Clone, Debug, PartialEq, Eq)]
pub struct InitOptions {
    /// Where to place the workspace.
    pub path: String,
    /// Channels to use in the workspace.
    pub channels: Option<Vec<String>>,
    /// Platforms that the workspace supports.
    pub platforms: Vec<String>,
    /// An environment file to bootstrap the workspace from.
    pub env_file: Option<String>,
    /// The manifest format to create.
    pub format: Option<ManifestFormat>,
    /// Create a pyproject manifest instead of a pixi one.
    pub pyproject_toml: bool,
    /// Source control management used for the workspace.
    pub scm: Option<GitAttributes>,
}

impl Default for InitOptions {
    /// The current directory, and nothing else chosen.
    fn default() -> (r: InitOptions)
        ensures
            r.path@ == "."@,
            r.channels is None,
            r.platforms@.len() == 0,
            r.env_file is None,
            r.format is None,
            !r.pyproject_toml,
            r.scm is None,
    {
        InitOptions {
            path: ".".to_owned(),
            channels: None,
            platforms: Vec::new(),
            env_file: None,
            format: None,
            pyproject_toml: false,
            scm: None,
        }
    }
}

} // verus!
