//! Agent metadata advertised to the mesh directory.

use vstd::prelude::*;

use crate::capability::{Capability, Error, PrimitiveResult};
use crate::ids::AgentId;
use crate::text::{is_blank, spec_blank};

verus! {

/// Human-readable description of an agent's identity and capabilities.
#[derive(Clone, Debug)]
pub struct AgentManifest {
    id: AgentId,
    name: String,
    version: String,
    description: Option<String>,
    capabilities: Vec<Capability>,
    tags: Vec<String>,
}

impl AgentManifest {
    /// The agent identifier.
    pub closed spec fn spec_id(&self) -> AgentId {
        self.id
    }

    /// The display name.
    pub closed spec fn spec_name(&self) -> Seq<char> {
        self.name@
    }

    /// The version text.
    pub closed spec fn spec_version(&self) -> Seq<char> {
        self.version@
    }

    /// The optional description.
    pub closed spec fn spec_description(&self) -> Option<Seq<char>> {
        match self.description {
            Some(d) => Some(d@),
            None => None,
        }
    }

    /// The advertised capabilities.
    pub closed spec fn spec_capabilities(&self) -> Seq<Capability> {
        self.capabilities@
    }

    /// The tag labels.
    pub closed spec fn spec_tags(&self) -> Seq<Seq<char>> {
        self.tags@.map_values(|s: String| s@)
    }

    /// A well-formed manifest: name and version are non-blank and every tag
    /// is non-blank.
    pub closed spec fn wf(&self) -> bool {
        &&& !spec_blank(self.name@)
        &&& !spec_blank(self.version@)
        &&& forall|i: int| 0 <= i < self.tags@.len() ==> !spec_blank(#[trigger] self.tags@[i]@)
    }

    /// Starts building an [`AgentManifest`].
    pub fn builder(id: AgentId) -> (r: AgentManifestBuilder)
        ensures
            r.spec_id() == id,
            r.spec_name() is None,
            r.spec_version() is None,
            r.spec_tags() == Seq::<Seq<char>>::empty(),
            r.wf(),
    {
        AgentManifestBuilder {
            id,
            name: None,
            version: None,
            description: None,
            capabilities: Vec::new(),
            tags: Vec::new(),
        }
    }

    /// Returns the agent identifier.
    pub fn id(&self) -> (r: AgentId)
        ensures
            r == self.spec_id(),
    {
        self.id
    }

    /// Returns the agent display name.
    pub fn name(&self) -> (r: &str)
        ensures
            r@ == self.spec_name(),
    {
        self.name.as_str()
    }

    /// Returns the semantic version string identifying the agent build.
    pub fn version(&self) -> (r: &str)
        ensures
            r@ == self.spec_version(),
    {
        self.version.as_str()
    }

    /// Returns the optional description.
    pub fn description(&self) -> (r: Option<&str>)
        ensures
            match r {
                Some(d) => self.spec_description() == Some(d@),
                None => self.spec_description() is None,
            },
    {
        match &self.description {
            Some(d) => Some(d.as_str()),
            None => None,
        }
    }

    /// Returns the advertised capabilities.
    pub fn capabilities(&self) -> (r: &Vec<Capability>)
        ensures
            r@ == self.spec_capabilities(),
    {
        &self.capabilities
    }

    /// Returns any optional tags associated with the agent.
    pub fn tags(&self) -> (r: &Vec<String>)
        ensures
            r@.map_values(|s: String| s@) == self.spec_tags(),
    {
        &self.tags
    }
}

/// Builder for [`AgentManifest`].
#[derive(Debug)]
pub struct AgentManifestBuilder {
    id: AgentId,
    name: Option<String>,
    version: Option<String>,
    description: Option<String>,
    capabilities: Vec<Capability>,
    tags: Vec<String>,
}

impl AgentManifestBuilder {
    /// The agent identifier under construction.
    pub closed spec fn spec_id(&self) -> AgentId {
        self.id
    }

    /// The name, if one has been set.
    pub closed spec fn spec_name(&self) -> Option<Seq<char>> {
        match self.name {
            Some(n) => Some(n@),
            None => None,
        }
    }

    /// The version, if one has been set.
    pub closed spec fn spec_version(&self) -> Option<Seq<char>> {
        match self.version {
            Some(v) => Some(v@),
            None => None,
        }
    }

    /// The tags collected so far.
    pub closed spec fn spec_tags(&self) -> Seq<Seq<char>> {
        self.tags@.map_values(|s: String| s@)
    }

    /// The collected state is valid: any set name or version is non-blank,
    /// and every tag is non-blank.
    pub closed spec fn wf(&self) -> bool {
        &&& match self.name {
            Some(n) => !spec_blank(n@),
            None => true,
        }
        &&& match self.version {
            Some(v) => !spec_blank(v@),
            None => true,
        }
        &&& forall|i: int| 0 <= i < self.tags@.len() ==> !spec_blank(#[trigger] self.tags@[i]@)
    }

    /// Sets the human-readable name for the agent; blank names are rejected.
    pub fn name(self, name: &str) -> (r: PrimitiveResult<AgentManifestBuilder>)
        ensures
            r is Ok <==> !spec_blank(name@),
            r matches Ok(b) ==> {
                &&& b.spec_name() == Some(name@)
                &&& b.spec_id() == self.spec_id()
                &&& b.spec_version() == self.spec_version()
                &&& b.spec_tags() == self.spec_tags()
                &&& self.wf() ==> b.wf()
            },
    {
        if is_blank(name) {
            return Err(Error::InvalidCapability {
                reason: "manifest name cannot be empty".to_owned(),
            });
        }
        let AgentManifestBuilder { id, name: _, version, description, capabilities, tags } = self;
        Ok(AgentManifestBuilder {
            id,
            name: Some(name.to_owned()),
            version,
            description,
            capabilities,
            tags,
        })
    }

    /// Sets the semantic version string; blank versions are rejected.
    pub fn version(self, version: &str) -> (r: PrimitiveResult<AgentManifestBuilder>)
        ensures
            r is Ok <==> !spec_blank(version@),
            r matches Ok(b) ==> {
                &&& b.spec_version() == Some(version@)
                &&& b.spec_id() == self.spec_id()
                &&& b.spec_name() == self.spec_name()
                &&& b.spec_tags() == self.spec_tags()
                &&& self.wf() ==> b.wf()
            },
    {
        if is_blank(version) {
            return Err(Error::InvalidCapability {
                reason: "manifest version cannot be empty".to_owned(),
            });
        }
        let AgentManifestBuilder { id, name, version: _, description, capabilities, tags } = self;
        Ok(AgentManifestBuilder {
            id,
            name,
            version: Some(version.to_owned()),
            description,
            capabilities,
            tags,
        })
    }

    /// Sets an optional description.
    pub fn description(self, description: &str) -> (r: AgentManifestBuilder)
        ensures
            r.spec_id() == self.spec_id(),
            r.spec_name() == self.spec_name(),
            r.spec_version() == self.spec_version(),
            r.spec_tags() == self.spec_tags(),
            self.wf() ==> r.wf(),
    {
        let AgentManifestBuilder { id, name, version, description: _, capabilities, tags } = self;
        AgentManifestBuilder {
            id,
            name,
            version,
            description: Some(description.to_owned()),
            capabilities,
            tags,
        }
    }

    /// Replaces the capability set.
    pub fn capabilities(self, capabilities: Vec<Capability>) -> (r: AgentManifestBuilder)
        ensures
            r.spec_id() == self.spec_id(),
            r.spec_name() == self.spec_name(),
            r.spec_version() == self.spec_version(),
            r.spec_tags() == self.spec_tags(),
            self.wf() ==> r.wf(),
    {
        let AgentManifestBuilder { id, name, version, description, capabilities: _, tags } = self;
        AgentManifestBuilder { id, name, version, description, capabilities, tags }
    }

    /// Adds a tag label; blank tags are rejected.
    pub fn add_tag(self, tag: &str) -> (r: PrimitiveResult<AgentManifestBuilder>)
        ensures
            r is Ok <==> !spec_blank(tag@),
            r matches Ok(b) ==> {
                &&& b.spec_id() == self.spec_id()
                &&& b.spec_name() == self.spec_name()
                &&& b.spec_version() == self.spec_version()
                &&& b.spec_tags() == self.spec_tags().push(tag@)
                &&& self.wf() ==> b.wf()
            },
    {
        if is_blank(tag) {
            return Err(Error::InvalidCapability {
                reason: "manifest tag cannot be empty".to_owned(),
            });
        }
        let AgentManifestBuilder { id, name, version, description, capabilities, mut tags } = self;
        tags.push(tag.to_owned());
        let b = AgentManifestBuilder { id, name, version, description, capabilities, tags };
        proof {
            assert(b.spec_tags() =~= self.spec_tags().push(tag@));
        }
        Ok(b)
    }

    /// Consumes the builder and returns the manifest.
    ///
    /// Succeeds exactly when a name and a version were provided; the
    /// manifest then carries the collected fields.
    pub fn build(self) -> (r: PrimitiveResult<AgentManifest>)
        ensures
            r is Ok <==> (self.spec_name() is Some && self.spec_version() is Some),
            r matches Ok(m) ==> {
                &&& m.spec_id() == self.spec_id()
                &&& Some(m.spec_name()) == self.spec_name()
                &&& Some(m.spec_version()) == self.spec_version()
                &&& m.spec_tags() == self.spec_tags()
                &&& self.wf() ==> m.wf()
            },
    {
        let AgentManifestBuilder { id, name, version, description, capabilities, tags } = self;
        let name = match name {
            Some(n) => n,
            None => {
                return Err(Error::InvalidCapability {
                    reason: "manifest name must be provided".to_owned(),
                });
            },
        };
        let version = match version {
            Some(v) => v,
            None => {
                return Err(Error::InvalidCapability {
                    reason: "manifest version must be provided".to_owned(),
                });
            },
        };
        Ok(AgentManifest { id, name, version, description, capabilities, tags })
    }
}

} // verus!
