//! Runtime registry for tool metadata.
//!
//! The registry holds the name-keyed metadata of registered tools and
//! enforces name uniqueness; the executors themselves run with the host,
//! which looks tools up here before invoking them.

use vstd::prelude::*;

use crate::capability::CapabilityId;
use crate::text::{is_blank, spec_blank};

verus! {

/// Errors produced by tool registration and invocation.
#[derive(Debug)]
pub enum ToolError {
    /// Tool metadata failed validation.
    InvalidMetadata {
        /// Human-readable reason for rejection.
        reason: String,
    },
    /// Tool name collided with an existing registration.
    DuplicateTool {
        /// Name of the offending tool.
        name: String,
    },
    /// Requested tool does not exist.
    UnknownTool {
        /// Name of the missing tool.
        name: String,
    },
    /// Tool execution failed.
    Execution {
        /// Human-readable error returned by the tool implementation.
        reason: String,
    },
}

impl ToolError {
    /// Creates an execution error from the supplied reason.
    pub fn execution(reason: &str) -> (r: ToolError)
        ensures
            r matches ToolError::Execution { reason: s } && s@ == reason@,
    {
        ToolError::Execution { reason: reason.to_owned() }
    }
}

/// Result alias for tool operations.
pub type ToolResult<T> = Result<T, ToolError>;

/// Mathematical model of tool metadata.
pub ghost struct ToolMetadataModel {
    /// The tool name.
    pub name: Seq<char>,
    /// The version text.
    pub version: Seq<char>,
    /// The optional description.
    pub description: Option<Seq<char>>,
    /// The capability identifiers required for invocation.
    pub capabilities: Seq<Seq<char>>,
}

/// Metadata describing a registered tool.
#[derive(Debug)]
pub struct ToolMetadata {
    name: String,
    version: String,
    description: Option<String>,
    capabilities: Vec<CapabilityId>,
}

impl View for ToolMetadata {
    type V = ToolMetadataModel;

    closed spec fn view(&self) -> ToolMetadataModel {
        ToolMetadataModel {
            name: self.name@,
            version: self.version@,
            description: match self.description {
                Some(d) => Some(d@),
                None => None,
            },
            capabilities: self.capabilities@.map_values(|c: CapabilityId| c.spec_text()),
        }
    }
}

impl DeepView for ToolMetadata {
    type V = ToolMetadataModel;

    open spec fn deep_view(&self) -> ToolMetadataModel {
        self.view()
    }
}

impl Clone for ToolMetadata {
    fn clone(&self) -> (res: Self)
        ensures
            res@ == self@,
    {
        let mut capabilities: Vec<CapabilityId> = Vec::new();
        let n = self.capabilities.len();
        let mut i: usize = 0;
        while i < n
            invariant
                0 <= i <= n,
                n == self.capabilities@.len(),
                capabilities@.len() == i,
                forall|j: int|
                    0 <= j < i ==> (#[trigger] capabilities@[j]).spec_text()
                        == self.capabilities@[j].spec_text(),
            decreases n - i,
        {
            capabilities.push(self.capabilities[i].clone());
            i = i + 1;
        }
        let res = ToolMetadata {
            name: self.name.clone(),
            version: self.version.clone(),
            description: match &self.description {
                Some(d) => Some(d.clone()),
                None => None,
            },
            capabilities,
        };
        proof {
            assert(res@.capabilities =~= self@.capabilities);
        }
        res
    }
}

impl ToolMetadata {
    /// Creates metadata for the supplied identifier and version.
    ///
    /// Succeeds exactly when neither the name nor the version is blank.
    pub fn new(name: &str, version: &str) -> (r: ToolResult<ToolMetadata>)
        ensures
            r is Ok <==> (!spec_blank(name@) && !spec_blank(version@)),
            r matches Ok(m) ==> m@ == (ToolMetadataModel {
                name: name@,
                version: version@,
                description: None,
                capabilities: Seq::<Seq<char>>::empty(),
            }),
            r matches Err(e) ==> e is InvalidMetadata,
    {
        if is_blank(name) {
            return Err(ToolError::InvalidMetadata {
                reason: "tool name cannot be empty".to_owned(),
            });
        }
        if is_blank(version) {
            return Err(ToolError::InvalidMetadata {
                reason: "tool version cannot be empty".to_owned(),
            });
        }
        let r = ToolMetadata {
            name: name.to_owned(),
            version: version.to_owned(),
            description: None,
            capabilities: Vec::new(),
        };
        proof {
            assert(r@.capabilities =~= Seq::<Seq<char>>::empty());
        }
        Ok(r)
    }

    /// Sets the human-readable description.
    pub fn with_description(self, description: &str) -> (r: ToolMetadata)
        ensures
            r@ == (ToolMetadataModel { description: Some(description@), ..self@ }),
    {
        let ToolMetadata { name, version, description: _, capabilities } = self;
        ToolMetadata { name, version, description: Some(description.to_owned()), capabilities }
    }

    /// Attaches capability identifiers required for invocation.
    pub fn with_capabilities(self, capabilities: Vec<CapabilityId>) -> (r: ToolMetadata)
        ensures
            r@ == (ToolMetadataModel {
                capabilities: capabilities@.map_values(|c: CapabilityId| c.spec_text()),
                ..self@
            }),
    {
        let ToolMetadata { name, version, description, capabilities: _ } = self;
        ToolMetadata { name, version, description, capabilities }
    }

    /// Returns the tool name.
    pub fn name(&self) -> (r: &str)
        ensures
            r@ == self@.name,
    {
        self.name.as_str()
    }

    /// Returns the semantic version string.
    pub fn version(&self) -> (r: &str)
        ensures
            r@ == self@.version,
    {
        self.version.as_str()
    }

    /// Returns the optional description.
    pub fn description(&self) -> (r: Option<&str>)
        ensures
            match r {
                Some(d) => self@.description == Some(d@),
                None => self@.description is None,
            },
    {
        match &self.description {
            Some(d) => Some(d.as_str()),
            None => None,
        }
    }

    /// Returns the required capability identifiers.
    pub fn capabilities(&self) -> (r: &Vec<CapabilityId>)
        ensures
            r@.map_values(|c: CapabilityId| c.spec_text()) == self@.capabilities,
    {
        &self.capabilities
    }
}

/// The metadata registered under `name`, if any.
pub open spec fn spec_tool_get(s: Seq<ToolMetadataModel>, name: Seq<char>) -> Option<
    ToolMetadataModel,
>
    decreases s.len(),
{
    if s.len() == 0 {
        None
    } else if s.last().name == name {
        Some(s.last())
    } else {
        spec_tool_get(s.drop_last(), name)
    }
}

/// Registry that stores tool metadata keyed by name.
#[derive(Debug)]
pub struct ToolRegistry {
    tools: Vec<ToolMetadata>,
}

impl ToolRegistry {
    /// The registered metadata, in registration order.
    pub closed spec fn spec_tools(&self) -> Seq<ToolMetadataModel> {
        self.tools.deep_view()
    }

    /// Names are unique in the registry.
    pub open spec fn wf(&self) -> bool {
        forall|i: int, j: int|
            0 <= i < j < self.spec_tools().len() ==> (#[trigger] self.spec_tools()[i]).name != (
            #[trigger] self.spec_tools()[j]).name
    }

    /// Creates an empty registry.
    pub fn new() -> (r: ToolRegistry)
        ensures
            r.spec_tools() == Seq::<ToolMetadataModel>::empty(),
            r.wf(),
    {
        let r = ToolRegistry { tools: Vec::new() };
        proof {
            assert(r.spec_tools() =~= Seq::<ToolMetadataModel>::empty());
        }
        r
    }

    /// Registers a tool's metadata.
    ///
    /// Succeeds exactly when the name is not yet taken; the metadata is
    /// then appended.
    #[verifier::loop_isolation(false)]
    pub fn register_tool(&mut self, metadata: ToolMetadata) -> (r: ToolResult<()>)
        requires
            old(self).wf(),
        ensures
            final(self).wf(),
            r is Ok <==> spec_tool_get(old(self).spec_tools(), metadata@.name) is None,
            r is Ok ==> final(self).spec_tools() == old(self).spec_tools().push(metadata@),
            r is Err ==> final(self).spec_tools() == old(self).spec_tools(),
            r matches Err(e) ==> e matches ToolError::DuplicateTool { name } && name@
                == metadata@.name,
    {
        let ghost start = self.spec_tools();
        let n = self.tools.len();
        proof {
            assert(start.take(n as int) =~= start);
        }
        let mut i: usize = n;
        while i > 0
            invariant
                0 <= i <= n,
                n == self.tools@.len(),
                self.spec_tools() == start,
                spec_tool_get(start, metadata@.name) == spec_tool_get(
                    start.take(i as int),
                    metadata@.name,
                ),
            decreases i,
        {
            i = i - 1;
            if self.tools[i].name == metadata.name {
                proof {
                    assert(start.take(i as int + 1).last() == start[i as int]);
                }
                return Err(ToolError::DuplicateTool { name: metadata.name.clone() });
            }
            proof {
                assert(start.take(i as int + 1).last() == start[i as int]);
                assert(start.take(i as int + 1).drop_last() =~= start.take(i as int));
            }
        }
        proof {
            assert(start.take(0) =~= Seq::<ToolMetadataModel>::empty());
        }
        let ghost m_model = metadata@;
        self.tools.push(metadata);
        proof {
            assert(self.spec_tools() =~= start.push(m_model));
            assert forall|a: int, b: int|
                0 <= a < b < self.spec_tools().len() implies (#[trigger] self.spec_tools()[a]).name
                != (#[trigger] self.spec_tools()[b]).name by {
                if b == self.spec_tools().len() - 1 {
                    lemma_tool_get_absent_means_fresh(start, m_model.name);
                    assert(start[a].name != m_model.name);
                }
            }
        }
        Ok(())
    }

    /// Returns the metadata registered under the name, if any.
    #[verifier::loop_isolation(false)]
    pub fn get(&self, name: &str) -> (r: Option<ToolMetadata>)
        ensures
            match r {
                Some(m) => spec_tool_get(self.spec_tools(), name@) == Some(m@),
                None => spec_tool_get(self.spec_tools(), name@) is None,
            },
    {
        let ghost all = self.spec_tools();
        let owned: String = name.to_owned();
        let n = self.tools.len();
        proof {
            assert(all.take(n as int) =~= all);
        }
        let mut i: usize = n;
        while i > 0
            invariant
                0 <= i <= n,
                owned@ == name@,
                spec_tool_get(all, name@) == spec_tool_get(all.take(i as int), name@),
            decreases i,
        {
            i = i - 1;
            if self.tools[i].name == owned {
                proof {
                    assert(all.take(i as int + 1).last() == all[i as int]);
                }
                return Some(self.tools[i].clone());
            }
            proof {
                assert(all.take(i as int + 1).last() == all[i as int]);
                assert(all.take(i as int + 1).drop_last() =~= all.take(i as int));
            }
        }
        proof {
            assert(all.take(0) =~= Seq::<ToolMetadataModel>::empty());
        }
        None
    }

    /// Lists the metadata of all registered tools, in registration order.
    #[verifier::loop_isolation(false)]
    pub fn list(&self) -> (r: Vec<ToolMetadata>)
        ensures
            r.deep_view() == self.spec_tools(),
    {
        let n = self.tools.len();
        let mut out: Vec<ToolMetadata> = Vec::new();
        let mut i: usize = 0;
        while i < n
            invariant
                0 <= i <= n,
                out.deep_view() =~= self.spec_tools().take(i as int),
            decreases n - i,
        {
            let ghost prev = out.deep_view();
            let c = self.tools[i].clone();
            proof {
                assert(c@ == self.spec_tools()[i as int]);
            }
            out.push(c);
            proof {
                assert(out.deep_view() =~= prev.push(c@));
                assert(out.deep_view() =~= self.spec_tools().take(i as int + 1));
            }
            i = i + 1;
        }
        proof {
            assert(self.spec_tools().take(n as int) =~= self.spec_tools());
        }
        out
    }
}

/// When a lookup misses, no entry carries the name.
proof fn lemma_tool_get_absent_means_fresh(s: Seq<ToolMetadataModel>, name: Seq<char>)
    requires
        spec_tool_get(s, name) is None,
    ensures
        forall|i: int| 0 <= i < s.len() ==> (#[trigger] s[i]).name != name,
    decreases s.len(),
{
    if s.len() > 0 {
        lemma_tool_get_absent_means_fresh(s.drop_last(), name);
        assert forall|i: int| 0 <= i < s.len() implies (#[trigger] s[i]).name != name by {
            if i < s.len() - 1 {
                assert(s.drop_last()[i] == s[i]);
            }
        }
    }
}

} // verus!
