//! The pinned inventory of tools that the server offers, with its
//! fingerprint and a lookup table by name.
use vstd::prelude::*;
use vstd::utf8::*;

use crate::auth::{scope_name, ToolScope};
use crate::sanitize::{fingerprint_text, sha256, sha256_digest};
use crate::text::hex_of;

verus! {

/// Tool definition metadata for inventory pinning.
#[derive(Debug, Clone, PartialEq, Eq)]
pub struct ToolDefinition {
    pub name: String,
    pub version: String,
    pub description: String,
    pub scope: String,
}

/// Version of this server.
pub const SERVER_VERSION: &'static str = "1.0.0";

/// The registered tools: name, scope and description, in order.
pub open spec fn tool_entries() -> Seq<(Seq<char>, ToolScope, Seq<char>)> {
    seq![
        ("docker_system_info@1"@, ToolScope::Read, "Docker daemon system information"@),
        ("docker_list_containers@1"@, ToolScope::Read, "List Docker containers"@),
        ("docker_inspect_container@1"@, ToolScope::Read, "Inspect a container by ID or name"@),
        ("docker_container_logs@1"@, ToolScope::Read, "Fetch container logs with tail limit"@),
        ("docker_list_images@1"@, ToolScope::Read, "List Docker images"@),
        ("docker_inspect_image@1"@, ToolScope::Read, "Inspect an image by name or ID"@),
        ("docker_list_networks@1"@, ToolScope::Read, "List Docker networks"@),
        ("docker_list_volumes@1"@, ToolScope::Read, "List Docker volumes"@),
        ("docker_start_container@1"@, ToolScope::Write, "Start a stopped container"@),
        ("docker_stop_container@1"@, ToolScope::Write, "Stop a running container"@),
        ("docker_restart_container@1"@, ToolScope::Write, "Restart a container"@),
        ("docker_remove_container@1"@, ToolScope::Write, "Remove a container"@),
        ("docker_run_container@1"@, ToolScope::Write, "Run a container (non-privileged)"@),
        ("docker_pull_image@1"@, ToolScope::Write, "Pull an image from a registry"@),
        ("docker_remove_image@1"@, ToolScope::Write, "Remove an image"@),
        ("docker_compose_ps@1"@, ToolScope::Compose, "List compose project services"@),
        ("docker_compose_config@1"@, ToolScope::Compose, "Validate and render compose config"@),
    ]
}

/// Whether `t` is the definition of the registered entry `e`.
pub open spec fn defines(t: ToolDefinition, e: (Seq<char>, ToolScope, Seq<char>)) -> bool {
    &&& t.name@ == e.0
    &&& t.version@ == "1"@
    &&& t.description@ == e.2
    &&& t.scope@ == scope_name(e.1)
}

/// The bytes that the inventory fingerprint hashes: for each tool, its
/// name, version, description and scope, one after the other.
pub open spec fn inventory_bytes(entries: Seq<(Seq<char>, ToolScope, Seq<char>)>) -> Seq<u8>
    decreases entries.len(),
{
    if entries.len() == 0 {
        seq![]
    } else {
        let e = entries.last();
        inventory_bytes(entries.drop_last()) + encode_utf8(e.0) + encode_utf8("1"@) + encode_utf8(
            e.2,
        ) + encode_utf8(scope_name(e.1))
    }
}

/// A tool definition of version 1.
pub fn tool(name: &str, scope: &str, description: &str) -> (t: ToolDefinition)
    ensures
        t.name@ == name@,
        t.version@ == "1"@,
        t.description@ == description@,
        t.scope@ == scope@,
{
    ToolDefinition {
        name: String::from_str(name),
        version: String::from_str("1"),
        description: String::from_str(description),
        scope: String::from_str(scope),
    }
}

/// The seventeen tools that the server registers, in order.
pub fn registered_tools() -> (r: Vec<ToolDefinition>)
    ensures
        r@.len() == tool_entries().len(),
        forall|i: int| 0 <= i < r@.len() ==> defines(#[trigger] r@[i], tool_entries()[i]),
{
    let tools = vec![
        tool("docker_system_info@1", "docker:read", "Docker daemon system information"),
        tool("docker_list_containers@1", "docker:read", "List Docker containers"),
        tool("docker_inspect_container@1", "docker:read", "Inspect a container by ID or name"),
        tool("docker_container_logs@1", "docker:read", "Fetch container logs with tail limit"),
        tool("docker_list_images@1", "docker:read", "List Docker images"),
        tool("docker_inspect_image@1", "docker:read", "Inspect an image by name or ID"),
        tool("docker_list_networks@1", "docker:read", "List Docker networks"),
        tool("docker_list_volumes@1", "docker:read", "List Docker volumes"),
        tool("docker_start_container@1", "docker:write", "Start a stopped container"),
        tool("docker_stop_container@1", "docker:write", "Stop a running container"),
        tool("docker_restart_container@1", "docker:write", "Restart a container"),
        tool("docker_remove_container@1", "docker:write", "Remove a container"),
        tool("docker_run_container@1", "docker:write", "Run a container (non-privileged)"),
        tool("docker_pull_image@1", "docker:write", "Pull an image from a registry"),
        tool("docker_remove_image@1", "docker:write", "Remove an image"),
        tool("docker_compose_ps@1", "docker:compose", "List compose project services"),
        tool("docker_compose_config@1", "docker:compose", "Validate and render compose config"),
    ];
    proof {
        assert forall|i: int| 0 <= i < tools@.len() implies defines(
            #[trigger] tools@[i],
            tool_entries()[i],
        ) by {
        }
    }
    tools
}

/// No two registered tools share a name.
pub proof fn lemma_tool_names_distinct()
    ensures
        forall|i: int, j: int|
            0 <= i < tool_entries().len() && 0 <= j < tool_entries().len() && i != j
                ==> #[trigger] tool_entries()[i].0 != #[trigger] tool_entries()[j].0,
{
    let e = tool_entries();
    reveal_strlit("docker_system_info@1");
    reveal_strlit("docker_list_containers@1");
    reveal_strlit("docker_inspect_container@1");
    reveal_strlit("docker_container_logs@1");
    reveal_strlit("docker_list_images@1");
    reveal_strlit("docker_inspect_image@1");
    reveal_strlit("docker_list_networks@1");
    reveal_strlit("docker_list_volumes@1");
    reveal_strlit("docker_start_container@1");
    reveal_strlit("docker_stop_container@1");
    reveal_strlit("docker_restart_container@1");
    reveal_strlit("docker_remove_container@1");
    reveal_strlit("docker_run_container@1");
    reveal_strlit("docker_pull_image@1");
    reveal_strlit("docker_remove_image@1");
    reveal_strlit("docker_compose_ps@1");
    reveal_strlit("docker_compose_config@1");
    // The length and the character at position 11 tell the names apart.
    assert forall|i: int, j: int|
        0 <= i < e.len() && 0 <= j < e.len() && i != j implies #[trigger] e[i].0 != #[trigger] e[j].0 by {
        if e[i].0 == e[j].0 {
            assert(e[i].0.len() == e[j].0.len() && e[i].0[11] == e[j].0[11]);
            assert(i == 0 || i == 1 || i == 2 || i == 3 || i == 4 || i == 5 || i == 6 || i == 7 || i == 8
                || i == 9 || i == 10 || i == 11 || i == 12 || i == 13 || i == 14 || i == 15 || i == 16);
            assert(j == 0 || j == 1 || j == 2 || j == 3 || j == 4 || j == 5 || j == 6 || j == 7 || j == 8
                || j == 9 || j == 10 || j == 11 || j == 12 || j == 13 || j == 14 || j == 15 || j == 16);
        }
    }
}

/// Appends `bytes` to `v`.
fn push_bytes(v: &mut Vec<u8>, bytes: &[u8])
    ensures
        final(v)@ == old(v)@ + bytes@,
{
    let ghost start = v@;
    let mut i: usize = 0;
    while i < bytes.len()
        invariant
            i <= bytes@.len(),
            v@ == start + bytes@.take(i as int),
        decreases bytes@.len() - i,
    {
        v.push(bytes[i]);
        proof {
            assert(bytes@.take(i + 1) =~= bytes@.take(i as int).push(bytes@[i as int]));
        }
        i = i + 1;
    }
    proof {
        assert(bytes@.take(bytes@.len() as int) =~= bytes@);
    }
}

/// SHA-256 over the names, versions, descriptions and scopes of the
/// registered tools, as `sha256:` and lowercase hex.
pub fn inventory_fingerprint() -> (r: String)
    ensures
        r@ == "sha256:"@ + hex_of(sha256_digest(inventory_bytes(tool_entries()))),
        r@.len() == 71,
{
    let tools = registered_tools();
    let mut data: Vec<u8> = Vec::new();
    let mut i: usize = 0;
    while i < tools.len()
        invariant
            i <= tools@.len(),
            tools@.len() == tool_entries().len(),
            forall|k: int| 0 <= k < tools@.len() ==> defines(#[trigger] tools@[k], tool_entries()[k]),
            data@ == inventory_bytes(tool_entries().take(i as int)),
        decreases tools@.len() - i,
    {
        let t = &tools[i];
        push_bytes(&mut data, t.name.as_str().as_bytes());
        push_bytes(&mut data, t.version.as_str().as_bytes());
        push_bytes(&mut data, t.description.as_str().as_bytes());
        push_bytes(&mut data, t.scope.as_str().as_bytes());
        proof {
            let es = tool_entries().take(i + 1);
            assert(es.drop_last() =~= tool_entries().take(i as int));
            assert(es.last() == tool_entries()[i as int]);
            assert(defines(tools@[i as int], tool_entries()[i as int]));
        }
        i = i + 1;
    }
    proof {
        assert(tool_entries().take(tools@.len() as int) =~= tool_entries());
    }
    let digest = sha256(data.as_slice());
    fingerprint_text(digest.as_slice())
}

/// The entries are the map: one entry per key, each under its own name.
spec fn tool_map_wf(entries: Seq<ToolDefinition>, map: Map<Seq<char>, ToolDefinition>) -> bool {
    &&& forall|i: int, j: int|
        0 <= i < entries.len() && 0 <= j < entries.len() && i != j ==> #[trigger] entries[i].name@
            != #[trigger] entries[j].name@
    &&& forall|k: Seq<char>|
        #[trigger] map.contains_key(k) <==> exists|i: int|
            0 <= i < entries.len() && #[trigger] entries[i].name@ == k
    &&& forall|i: int| 0 <= i < entries.len() ==> map[#[trigger] entries[i].name@] == entries[i]
    &&& map.dom().finite()
    &&& map.dom().len() == entries.len()
}

/// The tools by name: what `inventory_map` returns.
pub struct ToolMap {
    entries: Vec<ToolDefinition>,
    map: Ghost<Map<Seq<char>, ToolDefinition>>,
}

impl View for ToolMap {
    type V = Map<Seq<char>, ToolDefinition>;

    closed spec fn view(&self) -> Map<Seq<char>, ToolDefinition> {
        self.map@
    }
}

impl ToolMap {
    /// The entries are the map: one entry per key, each under its own name.
    #[verifier::type_invariant]
    spec fn wf(self) -> bool {
        tool_map_wf(self.entries@, self.map@)
    }

    /// An empty map.
    pub fn new() -> (m: Self)
        ensures
            m@ == Map::<Seq<char>, ToolDefinition>::empty(),
            m@.dom().finite(),
    {
        ToolMap { entries: Vec::new(), map: Ghost(Map::empty()) }
    }

    /// Where the entry named `key` stands, if there is one.
    fn position(&self, key: &String) -> (r: Option<usize>)
        ensures
            match r {
                Some(i) => i < self.entries@.len() && self.entries@[i as int].name@ == key@,
                None => forall|i: int|
                    0 <= i < self.entries@.len() ==> #[trigger] self.entries@[i].name@ != key@,
            },
    {
        let mut i: usize = 0;
        while i < self.entries.len()
            invariant
                i <= self.entries@.len(),
                forall|k: int| 0 <= k < i ==> #[trigger] self.entries@[k].name@ != key@,
            decreases self.entries@.len() - i,
        {
            if self.entries[i].name == *key {
                return Some(i);
            }
            i = i + 1;
        }
        None
    }

    /// Puts `t` under its name, replacing what was there.
    pub fn insert(&mut self, t: ToolDefinition)
        ensures
            final(self)@ == old(self)@.insert(t.name@, t),
            final(self)@.dom().finite(),
    {
        proof {
            use_type_invariant(&*self);
        }
        let key = t.name.clone();
        let pos = self.position(&key);
        let mut tmp = ToolMap::new();
        std::mem::swap(self, &mut tmp);
        proof {
            use_type_invariant(&tmp);
        }
        let ToolMap { entries, map } = tmp;
        let mut entries = entries;
        let ghost before = entries@;
        let ghost m = map@.insert(t.name@, t);
        let ghost at: int = match pos {
            Some(i) => i as int,
            None => before.len() as int,
        };
        match pos {
            Some(i) => {
                entries.set(i, t);
            },
            None => {
                entries.push(t);
            },
        }
        proof {
            assert(entries@[at].name@ == key@);
            assert forall|i: int, j: int|
                0 <= i < entries@.len() && 0 <= j < entries@.len() && i != j
                    implies #[trigger] entries@[i].name@ != #[trigger] entries@[j].name@ by {
                if i != at {
                    assert(entries@[i] == before[i]);
                }
                if j != at {
                    assert(entries@[j] == before[j]);
                }
            }
            assert forall|k: Seq<char>| #[trigger] m.contains_key(k) <==> exists|j: int|
                0 <= j < entries@.len() && #[trigger] entries@[j].name@ == k by {
                if m.contains_key(k) && k != key@ {
                    let j = choose|j: int| 0 <= j < before.len() && #[trigger] before[j].name@ == k;
                    assert(entries@[j].name@ == k);
                }
            }
            assert forall|i: int|
                0 <= i < entries@.len() implies m[#[trigger] entries@[i].name@] == entries@[i] by {
                if i != at {
                    assert(entries@[i] == before[i]);
                }
            }
        }
        proof {
            assert(m.dom() =~= map@.dom().insert(key@));
            assert(tool_map_wf(entries@, m));
        }
        *self = ToolMap { entries, map: Ghost(m) };
    }

    /// The definition stored under `key`, if any.
    pub fn get(&self, key: &str) -> (r: Option<&ToolDefinition>)
        ensures
            match r {
                Some(t) => self@.contains_key(key@) && *t == self@[key@],
                None => !self@.contains_key(key@),
            },
    {
        proof {
            use_type_invariant(self);
        }
        let k = String::from_str(key);
        match self.position(&k) {
            Some(i) => Some(&self.entries[i]),
            None => None,
        }
    }

    /// How many definitions are stored.
    pub fn len(&self) -> (n: usize)
        ensures
            n == self@.len(),
    {
        proof {
            use_type_invariant(self);
        }
        self.entries.len()
    }

    /// Whether a definition is stored under `key`.
    pub fn contains_key(&self, key: &str) -> (b: bool)
        ensures
            b == self@.contains_key(key@),
    {
        self.get(key).is_some()
    }
}

/// The registered tools keyed by name.
pub fn inventory_map() -> (m: ToolMap)
    ensures
        forall|k: Seq<char>|
            #[trigger] m@.contains_key(k) <==> exists|i: int|
                0 <= i < tool_entries().len() && #[trigger] tool_entries()[i].0 == k,
        forall|i: int|
            0 <= i < tool_entries().len() ==> defines(
                #[trigger] m@[tool_entries()[i].0],
                tool_entries()[i],
            ),
        m@.len() == tool_entries().len(),
        forall|k: Seq<char>| #[trigger] m@.contains_key(k) ==> m@[k].name@ == k,
{
    let mut tools = registered_tools();
    let ghost all = tools@;
    let mut m = ToolMap::new();
    let mut n: usize = 0;
    proof {
        lemma_tool_names_distinct();
    }
    while tools.len() > 0
        invariant
            all.len() == tool_entries().len(),
            forall|k: int| 0 <= k < all.len() ==> defines(#[trigger] all[k], tool_entries()[k]),
            n + tools@.len() == all.len(),
            tools@ == all.subrange(n as int, all.len() as int),
            forall|k: Seq<char>|
                #[trigger] m@.contains_key(k) <==> exists|i: int|
                    0 <= i < n && #[trigger] tool_entries()[i].0 == k,
            forall|i: int| 0 <= i < n ==> #[trigger] m@[tool_entries()[i].0] == all[i],
            m@.dom().finite(),
            m@.len() == n,
            forall|i: int, j: int|
                0 <= i < tool_entries().len() && 0 <= j < tool_entries().len() && i != j
                    ==> #[trigger] tool_entries()[i].0 != #[trigger] tool_entries()[j].0,
        decreases tools@.len(),
    {
        let t = tools.remove(0);
        proof {
            assert(t == all[n as int]);
            assert(t.name@ == tool_entries()[n as int].0);
            if m@.contains_key(t.name@) {
                let i = choose|i: int| 0 <= i < n && #[trigger] tool_entries()[i].0 == t.name@;
                assert(tool_entries()[i].0 == tool_entries()[n as int].0);
            }
        }
        m.insert(t);
        proof {
            assert(tools@ =~= all.subrange(n + 1, all.len() as int));
            assert forall|k: Seq<char>| #[trigger] m@.contains_key(k) <==> exists|i: int|
                0 <= i < n + 1 && #[trigger] tool_entries()[i].0 == k by {
                if k == tool_entries()[n as int].0 {
                } else if m@.contains_key(k) {
                }
            }
        }
        n = n + 1;
    }
    proof {
        assert forall|k: Seq<char>| #[trigger] m@.contains_key(k) implies m@[k].name@ == k by {
            let i = choose|i: int| 0 <= i < n && #[trigger] tool_entries()[i].0 == k;
            assert(defines(all[i], tool_entries()[i]));
        }
    }
    m
}

} // verus!
