//! Profiles of sub-agents, by name.

use vstd::prelude::*;
use crate::strmap::{DeepClone, StrMap};

verus! {

/// The profile under which the nested steps of a sub-agent run.
#[derive(Debug)]
pub struct AgentProfile {
    pub name: String,
    pub model: String,
    pub sandbox_mode: Option<String>,
    pub shell_allowlist: Vec<String>,
    pub mcp_enabled: Vec<String>,
    pub system_prompt: Option<String>,
}

pub ghost struct AgentProfileView {
    pub name: Seq<char>,
    pub model: Seq<char>,
    pub sandbox_mode: Option<Seq<char>>,
    pub shell_allowlist: Seq<Seq<char>>,
    pub mcp_enabled: Seq<Seq<char>>,
    pub system_prompt: Option<Seq<char>>,
}

impl DeepView for AgentProfile {
    type V = AgentProfileView;

    open spec fn deep_view(&self) -> AgentProfileView {
        AgentProfileView {
            name: self.name@,
            model: self.model@,
            sandbox_mode: self.sandbox_mode.deep_view(),
            shell_allowlist: self.shell_allowlist.deep_view(),
            mcp_enabled: self.mcp_enabled.deep_view(),
            system_prompt: self.system_prompt.deep_view(),
        }
    }
}

impl View for AgentProfile {
    type V = AgentProfileView;

    open spec fn view(&self) -> AgentProfileView {
        self.deep_view()
    }
}

impl DeepClone for AgentProfile {
    fn deep_clone(&self) -> (r: AgentProfile) {
        AgentProfile {
            name: self.name.clone(),
            model: self.model.clone(),
            sandbox_mode: self.sandbox_mode.deep_clone(),
            shell_allowlist: self.shell_allowlist.deep_clone(),
            mcp_enabled: self.mcp_enabled.deep_clone(),
            system_prompt: self.system_prompt.deep_clone(),
        }
    }
}

impl Default for AgentProfile {
    fn default() -> (r: AgentProfile)
        ensures
            r@ == (AgentProfileView {
                name: Seq::empty(),
                model: Seq::empty(),
                sandbox_mode: None,
                shell_allowlist: Seq::empty(),
                mcp_enabled: Seq::empty(),
                system_prompt: None,
            }),
    {
        let r = AgentProfile {
            name: String::new(),
            model: String::new(),
            sandbox_mode: None,
            shell_allowlist: Vec::new(),
            mcp_enabled: Vec::new(),
            system_prompt: None,
        };
        assert(r.shell_allowlist.deep_view() =~= Seq::empty());
        assert(r.mcp_enabled.deep_view() =~= Seq::empty());
        r
    }
}

/// The known profiles, each under its own name.
#[derive(Debug)]
pub struct AgentDirectory {
    pub profiles: StrMap<AgentProfile>,
}

impl View for AgentDirectory {
    type V = Map<Seq<char>, AgentProfileView>;

    open spec fn view(&self) -> Map<Seq<char>, AgentProfileView> {
        self.profiles@
    }
}

impl Default for AgentDirectory {
    fn default() -> (r: AgentDirectory)
        ensures
            r@ == Map::<Seq<char>, AgentProfileView>::empty(),
    {
        AgentDirectory { profiles: StrMap::new() }
    }
}

impl AgentDirectory {
    /// The profile of the name `name`, if there is one.
    pub fn get(&self, name: &str) -> (r: Option<&AgentProfile>)
        ensures
            match r {
                Some(p) => self@.contains_key(name@) && p@ == self@[name@],
                None => !self@.contains_key(name@),
            },
    {
        self.profiles.get(name)
    }

    /// Files the profile under its name, in place of an earlier profile of
    /// that name.
    pub fn upsert(&mut self, p: AgentProfile)
        ensures
            final(self)@ == old(self)@.insert(p@.name, p@),
    {
        let name = p.name.clone();
        self.profiles.insert(name, p);
    }
}

} // verus!
