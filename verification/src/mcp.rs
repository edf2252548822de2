//! The state of the configured MCP servers as the runtime sees it.

use vstd::prelude::*;
use crate::config::{Config, ConfigView, McpServer, McpServerView, absent_config};
use crate::strmap::{DeepClone, StrMap, lemma_pairs_push, pairs_map};

verus! {

/// Where the connection to one server stands.
#[derive(Debug, PartialEq, Eq)]
pub enum McpState {
    Disconnected,
    Connecting,
    Connected,
    Error(String),
}

pub ghost enum McpStateView {
    Disconnected,
    Connecting,
    Connected,
    Error(Seq<char>),
}

impl DeepView for McpState {
    type V = McpStateView;

    open spec fn deep_view(&self) -> McpStateView {
        match self {
            McpState::Disconnected => McpStateView::Disconnected,
            McpState::Connecting => McpStateView::Connecting,
            McpState::Connected => McpStateView::Connected,
            McpState::Error(m) => McpStateView::Error(m@),
        }
    }
}

impl DeepClone for McpState {
    fn deep_clone(&self) -> (r: McpState) {
        match self {
            McpState::Disconnected => McpState::Disconnected,
            McpState::Connecting => McpState::Connecting,
            McpState::Connected => McpState::Connected,
            McpState::Error(m) => McpState::Error(m.clone()),
        }
    }
}

/// The state that a server is brought to: connected where it is enabled,
/// disconnected where it is not.
pub open spec fn wanted_state(server: McpServerView) -> McpStateView {
    if server.enabled {
        McpStateView::Connected
    } else {
        McpStateView::Disconnected
    }
}

/// The states that the configured servers are brought to.
pub open spec fn wanted_states(servers: Map<Seq<char>, McpServerView>) -> Map<Seq<char>, McpStateView> {
    servers.map_values(|s: McpServerView| wanted_state(s))
}

/// Brings the state of every configured server in line with the
/// configuration. Servers that are no longer configured keep their state.
pub fn reconcile(cfg: &Config, state: &mut StrMap<McpState>)
    ensures
        final(state)@ == old(state)@.union_prefer_right(wanted_states(cfg@.mcp_servers)),
{
    let pairs = cfg.mcp.servers.pairs();
    let ghost before = state@;
    let mut i: usize = 0;
    proof {
        assert(pairs@.take(0) =~= Seq::<(String, McpServer)>::empty());
        assert(state@ =~= before.union_prefer_right(wanted_states(pairs_map(pairs@.take(0)))));
    }
    while i < pairs.len()
        invariant
            i <= pairs.len(),
            state@ == before.union_prefer_right(wanted_states(pairs_map(pairs@.take(i as int)))),
        decreases pairs.len() - i,
    {
        let wanted = if pairs[i].1.enabled {
            McpState::Connected
        } else {
            McpState::Disconnected
        };
        proof {
            let s = pairs@;
            let lo = pairs_map(s.take(i as int));
            assert(s.take(i + 1) =~= s.take(i as int).push(s[i as int]));
            lemma_pairs_push(s.take(i as int), s[i as int]);
            let key = s[i as int].0@;
            let server = s[i as int].1.deep_view();
            assert(wanted_states(lo.insert(key, server)) =~= wanted_states(lo).insert(
                key,
                wanted_state(server),
            ));
            assert(before.union_prefer_right(wanted_states(lo).insert(key, wanted_state(server)))
                =~= before.union_prefer_right(wanted_states(lo)).insert(key, wanted_state(server)));
        }
        state.insert(pairs[i].0.clone(), wanted);
        i += 1;
    }
    assert(pairs@.take(pairs.len() as int) =~= pairs@);
}

/// The patch that switches the server `name` on or off: a configuration that
/// sets nothing but that server, as it is configured, with the new switch.
/// `None` where no server of that name is configured.
pub fn enable_patch(cfg: &Config, name: &str, enabled: bool) -> (r: Option<Config>)
    ensures
        match r {
            Some(patch) => cfg@.mcp_servers.contains_key(name@) && patch@ == (ConfigView {
                mcp_servers: Map::<Seq<char>, McpServerView>::empty().insert(
                    name@,
                    McpServerView { enabled, ..cfg@.mcp_servers[name@] },
                ),
                ..absent_config()
            }),
            None => !cfg@.mcp_servers.contains_key(name@),
        },
{
    match cfg.mcp.servers.get(name) {
        Some(server) => {
            let mut copy = server.deep_clone();
            copy.enabled = enabled;
            let mut patch = Config::empty();
            patch.mcp.servers.insert(name.to_owned(), copy);
            Some(patch)
        },
        None => None,
    }
}

} // verus!
