//! Plugin registry: plugins by id, and an index from tool name to the plugin that
//! provides it. The first plugin to offer a tool name keeps it.
use vstd::prelude::*;
use vstd::std_specs::iter::IteratorSpec;
use crate::text::{join, owned};

verus! {

/// JSON values carried through schemas untouched.
#[verifier::external_type_specification]
#[verifier::external_body]
pub struct ExJsonValue(serde_json::Value);

/// Describes one tool parameter.
#[derive(Clone, Debug)]
pub struct ParameterSchema {
    pub name: String,
    pub param_type: String,
    pub description: String,
    pub required: bool,
    pub default: Option<serde_json::Value>,
    pub enum_values: Option<Vec<String>>,
}

/// Describes one tool.
#[derive(Clone, Debug)]
pub struct ToolSchema {
    pub name: String,
    pub description: String,
    pub parameters: Vec<ParameterSchema>,
}

/// Describes one plugin.
#[derive(Clone, Debug)]
pub struct PluginMetadata {
    pub id: String,
    pub name: String,
    pub version: String,
    pub description: String,
    pub author: String,
    pub tags: Vec<String>,
}

/// Shared state handed to a plugin: where its data lives.
#[derive(Clone, Debug)]
pub struct PluginContext {
    pub data_dir: String,
    pub plugin_id: String,
}

impl PluginContext {
    pub fn new(data_dir: String, plugin_id: &str) -> (r: PluginContext)
        ensures
            r.data_dir@ == data_dir@,
            r.plugin_id@ == plugin_id@,
    {
        PluginContext { data_dir, plugin_id: owned(plugin_id) }
    }
}

/// Registry errors.
#[derive(Clone, Debug)]
pub enum ExtendError {
    PluginAlreadyRegistered(String),
    PluginNotFound(String),
    ToolExecutionFailed(String),
}

/// What a tool plugin tells the registry about itself. Tool execution and the
/// plugin's start-up and shut-down run asynchronously next to the registry.
pub trait ToolPlugin {
    fn metadata(&self) -> &PluginMetadata;

    fn tools(&self) -> Vec<ToolSchema>;
}

/// Calls `dirs::data_dir`: the platform's directory for user data, if it has one, as
/// text (converted lossily). It depends on the machine and its environment, so nothing
/// is claimed of it.
#[verifier::external_body]
fn platform_data_dir() -> Option<String> {
    match dirs::data_dir() {
        Some(p) => Some(p.to_string_lossy().into_owned()),
        None => None,
    }
}

/// `name` joined under the directory `base` as `PathBuf::join` does on Unix: a `/` is put
/// between them unless `base` is empty or already ends with one.
pub open spec fn spec_join_path(base: Seq<char>, name: Seq<char>) -> Seq<char> {
    if base.len() == 0 || base.last() == '/' {
        base + name
    } else {
        base + seq!['/'] + name
    }
}

/// The directory of the platform's data: `bonbo` under the platform's data directory,
/// or under `.` when the platform has none.
pub open spec fn spec_data_dir_under(base: Option<Seq<char>>) -> Seq<char> {
    spec_join_path(
        match base {
            Some(b) => b,
            None => "."@,
        },
        "bonbo"@,
    )
}

/// The last character of a text, if any.
fn last_char(s: &str) -> (r: Option<char>)
    ensures
        r == if s@.len() == 0 { None::<char> } else { Some(s@.last()) },
{
    broadcast use vstd::string::axiom_spec_iter, vstd::string::next_postcondition;
    let mut it = s.chars();
    let mut last: Option<char> = None;
    let ghost mut k: int = 0;
    loop
        invariant
            0 <= k <= s@.len(),
            IteratorSpec::obeys_prophetic_iter_laws(&it),
            IteratorSpec::remaining(&it) == s@.skip(k),
            last == if k == 0 { None::<char> } else { Some(s@[k - 1]) },
        ensures
            last == if s@.len() == 0 { None::<char> } else { Some(s@.last()) },
        decreases s@.len() - k,
    {
        match it.next() {
            Some(c) => {
                proof {
                    assert(s@.skip(k)[0] == s@[k]);
                    assert(s@.skip(k).drop_first() =~= s@.skip(k + 1));
                    k = k + 1;
                }
                last = Some(c);
            },
            None => {
                proof {
                    assert(s@.skip(k).len() == 0);
                }
                break;
            },
        }
    }
    last
}

/// The data directory under `base` (the platform's data directory, `None` when it has
/// none): `<base>/bonbo`, or `./bonbo`.
pub fn data_dir_under(base: Option<String>) -> (r: String)
    ensures
        r@ == spec_data_dir_under(
            match base {
                Some(b) => Some(b@),
                None => None::<Seq<char>>,
            },
        ),
{
    let ghost base_text = match base {
        Some(ref b) => b@,
        None => "."@,
    };
    let dir = match base {
        Some(b) => b,
        None => owned("."),
    };
    assert(dir@ == base_text);
    proof {
        reveal_strlit("/");
    }
    let ends_with_sep = match last_char(dir.as_str()) {
        Some(c) => c == '/',
        None => true,
    };
    if ends_with_sep {
        join(dir, "bonbo")
    } else {
        join(join(dir, "/"), "bonbo")
    }
}

/// The texts of a list of strings.
pub open spec fn texts(v: Seq<String>) -> Seq<Seq<char>> {
    v.map_values(|s: String| s@)
}

/// Tool names of a list of schemas.
pub open spec fn schema_names(v: Seq<ToolSchema>) -> Seq<Seq<char>> {
    v.map_values(|s: ToolSchema| s.name@)
}

/// Registry of tool plugins.
pub struct PluginRegistry<P> {
    plugins: Vec<P>,
    plugin_ids: Vec<String>,
    contexts: Vec<PluginContext>,
    tool_names: Vec<String>,
    tool_owners: Vec<String>,
    data_dir: String,
}

/// The index after registering `tools` for plugin `id`: each tool name not yet indexed
/// is added with its owner, in order; names already indexed are skipped.
pub open spec fn add_tools(
    names: Seq<Seq<char>>,
    owners: Seq<Seq<char>>,
    tools: Seq<Seq<char>>,
    id: Seq<char>,
) -> (Seq<Seq<char>>, Seq<Seq<char>>)
    decreases tools.len(),
{
    if tools.len() == 0 {
        (names, owners)
    } else {
        let (n, o) = add_tools(names, owners, tools.drop_last(), id);
        if n.contains(tools.last()) {
            (n, o)
        } else {
            (n.push(tools.last()), o.push(id))
        }
    }
}

/// Where `s` stands in `v`, if anywhere.
pub fn position_of(v: &Vec<String>, s: &str) -> (r: Option<usize>)
    ensures
        match r {
            Some(i) => i < v@.len() && v@[i as int]@ == s@,
            None => !texts(v@).contains(s@),
        },
{
    let target = owned(s);
    let mut i: usize = 0;
    while i < v.len()
        invariant
            i <= v@.len(),
            target@ == s@,
            forall|j: int| 0 <= j < i ==> v@[j]@ != s@,
        decreases v@.len() - i,
    {
        if v[i] == target {
            return Some(i);
        }
        i = i + 1;
    }
    proof {
        if texts(v@).contains(s@) {
            let k = choose|k: int| 0 <= k < texts(v@).len() && texts(v@)[k] == s@;
            assert(v@[k]@ == s@);
        }
    }
    None
}

/// Registering a plugin's tools: afterwards every one of its tools is available,
/// every tool available before stays available with its first owner, nothing else
/// is added, each name is indexed once, and every newly indexed name belongs to the
/// new plugin.
pub proof fn lemma_add_tools(
    names: Seq<Seq<char>>,
    owners: Seq<Seq<char>>,
    tools: Seq<Seq<char>>,
    id: Seq<char>,
)
    requires
        names.no_duplicates(),
        names.len() == owners.len(),
    ensures
        add_tools(names, owners, tools, id).0.no_duplicates(),
        add_tools(names, owners, tools, id).0.len() == add_tools(names, owners, tools, id).1.len(),
        add_tools(names, owners, tools, id).0.len() >= names.len(),
        forall|i: int| 0 <= i < names.len() ==> add_tools(names, owners, tools, id).0[i] == names[i]
            && add_tools(names, owners, tools, id).1[i] == owners[i],
        forall|i: int|
            names.len() <= i < add_tools(names, owners, tools, id).1.len() ==> add_tools(
                names,
                owners,
                tools,
                id,
            ).1[i] == id,
        forall|j: int| 0 <= j < tools.len() ==> add_tools(names, owners, tools, id).0.contains(
            #[trigger] tools[j],
        ),
        forall|x: Seq<char>| #[trigger] add_tools(names, owners, tools, id).0.contains(x) ==> (
        names.contains(x) || tools.contains(x)),
    decreases tools.len(),
{
    if tools.len() > 0 {
        lemma_add_tools(names, owners, tools.drop_last(), id);
        let (n, o) = add_tools(names, owners, tools.drop_last(), id);
        assert forall|j: int| 0 <= j < tools.len() implies add_tools(names, owners, tools, id).0.contains(
            #[trigger] tools[j],
        ) by {
            if j < tools.len() - 1 {
                assert(tools.drop_last()[j] == tools[j]);
                assert(n.contains(tools.drop_last()[j]));
                let k = choose|k: int| 0 <= k < n.len() && n[k] == tools[j];
                assert(add_tools(names, owners, tools, id).0[k] == n[k]);
            } else if !n.contains(tools.last()) {
                assert(add_tools(names, owners, tools, id).0[n.len() as int] == tools[j]);
            }
        }
        assert forall|x: Seq<char>| #[trigger] add_tools(names, owners, tools, id).0.contains(x) implies (
        names.contains(x) || tools.contains(x)) by {
            if n.contains(x) {
                if tools.drop_last().contains(x) {
                    let k = choose|k: int| 0 <= k < tools.drop_last().len() && tools.drop_last()[k] == x;
                    assert(tools[k] == x);
                }
            } else {
                assert(x == tools.last());
                assert(tools[tools.len() - 1] == x);
            }
        }
    }
}

/// Registering tools adds exactly the names not indexed before: afterwards the index
/// holds as many names as the old names and the new tool names together, that is the
/// old count plus the number of distinct tool names that were not indexed yet.
pub proof fn lemma_add_tools_count(
    names: Seq<Seq<char>>,
    owners: Seq<Seq<char>>,
    tools: Seq<Seq<char>>,
    id: Seq<char>,
)
    requires
        names.no_duplicates(),
        names.len() == owners.len(),
    ensures
        add_tools(names, owners, tools, id).0.len() == (names.to_set() + tools.to_set()).len(),
        add_tools(names, owners, tools, id).0.len() == names.len() + tools.to_set().difference(
            names.to_set(),
        ).len(),
{
    broadcast use vstd::seq_lib::seq_to_set_is_finite;
    broadcast use vstd::set_lib::lemma_set_disjoint_lens;
    lemma_add_tools(names, owners, tools, id);
    let after = add_tools(names, owners, tools, id).0;
    after.unique_seq_to_set();
    names.unique_seq_to_set();
    assert forall|x: Seq<char>| after.to_set().contains(x) <==> (names.to_set() + tools.to_set()).contains(x) by {
        if names.contains(x) {
            let i = choose|i: int| 0 <= i < names.len() && names[i] == x;
            assert(after[i] == x);
        }
        if tools.contains(x) {
            let j = choose|j: int| 0 <= j < tools.len() && tools[j] == x;
            assert(after.contains(tools[j]));
        }
    }
    assert(after.to_set() =~= names.to_set() + tools.to_set());
    let a = names.to_set();
    let b = tools.to_set().difference(names.to_set());
    assert(a + b =~= names.to_set() + tools.to_set());
    assert(a.disjoint(b));
    assert((a + b).len() == a.len() + b.len());
}

/// The contents of each list.
pub open spec fn list_views(lists: Seq<Vec<ToolSchema>>) -> Seq<Seq<ToolSchema>> {
    lists.map_values(|v: Vec<ToolSchema>| v@)
}

/// The schemas of every list, list after list.
pub fn join_tool_lists(lists: Vec<Vec<ToolSchema>>) -> (r: Vec<ToolSchema>)
    ensures
        r@ == list_views(lists@).flatten(),
{
    let ghost all = lists@;
    let mut out: Vec<ToolSchema> = Vec::new();
    let mut rest = lists;
    let n = rest.len();
    let mut i: usize = 0;
    while i < n
        invariant
            n == all.len(),
            i <= n,
            rest@ == all.skip(i as int),
            out@ == list_views(all.take(i as int)).flatten(),
        decreases n - i,
    {
        let mut part = rest.remove(0);
        proof {
            assert(part == all[i as int]);
            assert(rest@ =~= all.skip(i as int + 1));
            assert(list_views(all.take(i as int + 1)) =~= list_views(all.take(i as int)).push(all[i as int]@));
            list_views(all.take(i as int)).lemma_flatten_push(all[i as int]@);
        }
        out.append(&mut part);
        i = i + 1;
    }
    proof {
        assert(all.take(n as int) =~= all);
    }
    out
}

impl<P> PluginRegistry<P> {
    /// Registered plugin ids, in order of registration.
    pub closed spec fn ids(&self) -> Seq<Seq<char>> {
        texts(self.plugin_ids@)
    }

    /// The registered plugins, in order of registration (the `k`-th has id `ids()[k]`).
    pub closed spec fn plugin_list(&self) -> Seq<P> {
        self.plugins@
    }

    /// Indexed tool names, in order.
    pub closed spec fn tool_names(&self) -> Seq<Seq<char>> {
        texts(self.tool_names@)
    }

    /// The plugin id owning each indexed tool name.
    pub closed spec fn tool_owners(&self) -> Seq<Seq<char>> {
        texts(self.tool_owners@)
    }

    pub closed spec fn spec_data_dir(&self) -> Seq<char> {
        self.data_dir@
    }

    /// Parallel lists line up; ids and tool names are distinct; every tool belongs to a
    /// registered plugin.
    pub closed spec fn wf(&self) -> bool {
        &&& self.plugins@.len() == self.plugin_ids@.len()
        &&& self.contexts@.len() == self.plugin_ids@.len()
        &&& self.tool_names@.len() == self.tool_owners@.len()
        &&& self.ids().no_duplicates()
        &&& self.tool_names().no_duplicates()
        &&& forall|i: int| 0 <= i < self.tool_owners().len() ==> self.ids().contains(
            #[trigger] self.tool_owners()[i],
        )
        &&& forall|i: int| 0 <= i < self.contexts@.len() ==> (#[trigger] self.contexts@[i]).plugin_id@
            == self.plugin_ids@[i]@
    }

    /// The outcome of registering a plugin that reports id `id` and tool names `tools`:
    /// refused with `PluginAlreadyRegistered(id)`, the registry left as it was, when `id`
    /// is taken;
    /// otherwise accepted, `id` appended, and each tool name not yet indexed indexed for it.
    pub open spec fn spec_registered(
        before: Self,
        after: Self,
        r: Result<(), ExtendError>,
        id: Seq<char>,
        tools: Seq<Seq<char>>,
    ) -> bool {
        if before.ids().contains(id) {
            &&& r matches Err(ExtendError::PluginAlreadyRegistered(e)) && e@ == id
            &&& after == before
        } else {
            &&& r is Ok
            &&& after.ids() == before.ids().push(id)
            &&& (after.tool_names(), after.tool_owners()) == add_tools(
                before.tool_names(),
                before.tool_owners(),
                tools,
                id,
            )
            &&& after.tool_names().len() == before.tool_names().len() + tools.to_set().difference(
                before.tool_names().to_set(),
            ).len()
        }
    }

    fn empty(data_dir: String) -> (r: Self)
        ensures
            r.wf(),
            r.ids() =~= Seq::<Seq<char>>::empty(),
            r.tool_names() =~= Seq::<Seq<char>>::empty(),
            r.plugin_list() =~= Seq::<P>::empty(),
            r.spec_data_dir() == data_dir@,
    {
        let r = PluginRegistry {
            plugins: Vec::new(),
            plugin_ids: Vec::new(),
            contexts: Vec::new(),
            tool_names: Vec::new(),
            tool_owners: Vec::new(),
            data_dir,
        };
        assert(r.ids() =~= Seq::<Seq<char>>::empty());
        assert(r.tool_names() =~= Seq::<Seq<char>>::empty());
        assert(r.tool_owners() =~= Seq::<Seq<char>>::empty());
        r
    }

    /// An empty registry with the platform's data directory.
    pub fn new() -> (r: Self)
        ensures
            r.wf(),
            r.ids() =~= Seq::<Seq<char>>::empty(),
            r.tool_names() =~= Seq::<Seq<char>>::empty(),
            r.plugin_list() =~= Seq::<P>::empty(),
    {
        Self::empty(data_dir_under(platform_data_dir()))
    }

    /// An empty registry with a given data directory.
    pub fn with_data_dir(data_dir: String) -> (r: Self)
        ensures
            r.wf(),
            r.ids() =~= Seq::<Seq<char>>::empty(),
            r.tool_names() =~= Seq::<Seq<char>>::empty(),
            r.plugin_list() =~= Seq::<P>::empty(),
            r.spec_data_dir() == data_dir@,
    {
        Self::empty(data_dir)
    }
}

impl<P: ToolPlugin> PluginRegistry<P> {
    /// Registers a plugin whose id is `id` and whose tools are `tools`. Refused when the
    /// id is taken. Otherwise each tool name not yet indexed is indexed for this plugin
    /// (names already indexed keep their first owner), a context is made for it, and
    /// the plugin is added.
    pub fn register_plugin_parts(&mut self, plugin: P, id: String, tools: Vec<ToolSchema>) -> (r:
        Result<(), ExtendError>)
        requires
            old(self).wf(),
        ensures
            final(self).wf(),
            old(self).ids().contains(id@) ==> r is Err && *final(self) == *old(self),
            !old(self).ids().contains(id@) ==> {
                &&& r is Ok
                &&& final(self).ids() == old(self).ids().push(id@)
                &&& (final(self).tool_names(), final(self).tool_owners()) == add_tools(
                    old(self).tool_names(),
                    old(self).tool_owners(),
                    schema_names(tools@),
                    id@,
                )
                &&& final(self).tool_names().len() == old(self).tool_names().len() + schema_names(
                    tools@,
                ).to_set().difference(old(self).tool_names().to_set()).len()
                &&& final(self).plugin_list() == old(self).plugin_list().push(plugin)
            },
            match r {
                Err(ExtendError::PluginAlreadyRegistered(e)) => e@ == id@,
                Err(_) => false,
                Ok(_) => true,
            },
    {
        let existing = position_of(&self.plugin_ids, id.as_str());
        if let Some(k) = existing {
            proof {
                assert(self.ids()[k as int] == id@);
            }
            return Err(ExtendError::PluginAlreadyRegistered(id));
        }
        let ghost names0 = self.tool_names();
        let ghost owners0 = self.tool_owners();
        let ghost tn = schema_names(tools@);
        proof {
            lemma_add_tools(names0, owners0, tn.take(0), id@);
            assert(tn.take(0) =~= Seq::<Seq<char>>::empty());
        }
        let mut i: usize = 0;
        while i < tools.len()
            invariant
                i <= tools@.len(),
                tn == schema_names(tools@),
                names0.no_duplicates(),
                names0.len() == owners0.len(),
                self.tool_names@.len() == self.tool_owners@.len(),
                (self.tool_names(), self.tool_owners()) == add_tools(
                    names0,
                    owners0,
                    tn.take(i as int),
                    id@,
                ),
                self.plugin_ids == old(self).plugin_ids,
                self.plugins == old(self).plugins,
                self.contexts == old(self).contexts,
                self.data_dir == old(self).data_dir,
                names0 == old(self).tool_names(),
                owners0 == old(self).tool_owners(),
            decreases tools@.len() - i,
        {
            let name = &tools[i].name;
            proof {
                assert(tn.take(i as int + 1).drop_last() =~= tn.take(i as int));
                assert(tn.take(i as int + 1).last() == tools@[i as int].name@);
            }
            let seen = position_of(&self.tool_names, name.as_str());
            if let Some(k) = seen {
                proof {
                    assert(self.tool_names()[k as int] == name@);
                    assert(self.tool_names().contains(name@));
                }
            }
            if seen.is_none() {
                self.tool_names.push(name.clone());
                self.tool_owners.push(id.clone());
                proof {
                    assert(self.tool_names() =~= add_tools(names0, owners0, tn.take(i as int + 1), id@).0);
                    assert(self.tool_owners() =~= add_tools(names0, owners0, tn.take(i as int + 1), id@).1);
                }
            }
            i = i + 1;
        }
        proof {
            assert(tn.take(tools@.len() as int) =~= tn);
            lemma_add_tools(names0, owners0, tn, id@);
            lemma_add_tools_count(names0, owners0, tn, id@);
        }
        let context = PluginContext::new(self.data_dir.clone(), id.as_str());
        self.plugins.push(plugin);
        self.contexts.push(context);
        self.plugin_ids.push(id);
        proof {
            assert(self.ids() =~= old(self).ids().push(id@));
            assert forall|k: int| 0 <= k < self.contexts@.len() implies (#[trigger] self.contexts@[k]).plugin_id@
                == self.plugin_ids@[k]@ by {
                if k < old(self).contexts@.len() {
                    assert(self.contexts@[k] == old(self).contexts@[k]);
                }
            }
            assert forall|k: int| 0 <= k < self.tool_owners().len() implies self.ids().contains(
                #[trigger] self.tool_owners()[k],
            ) by {
                if k < owners0.len() {
                    assert(old(self).ids().contains(owners0[k]));
                    let j = choose|j: int| 0 <= j < old(self).ids().len() && old(self).ids()[j] == owners0[k];
                    assert(self.ids()[j] == owners0[k]);
                } else {
                    assert(self.ids()[self.ids().len() - 1] == id@);
                }
            }
        }
        Ok(())
    }

    /// Registers a plugin, asking it once for its metadata and once for its tools: with
    /// the id and tool names these calls gave back, refused with
    /// `PluginAlreadyRegistered(id)` (the registry left alone) exactly when the id is
    /// already registered, else registered as
    /// [`register_plugin_parts`](Self::register_plugin_parts) does, the plugin appended.
    pub fn register_tool_plugin(&mut self, plugin: P) -> (r: Result<(), ExtendError>)
        requires
            old(self).wf(),
        ensures
            final(self).wf(),
            exists|m: &PluginMetadata, ts: Vec<ToolSchema>|
                call_ensures(P::metadata, (&plugin,), m) && call_ensures(P::tools, (&plugin,), ts)
                    && #[trigger] Self::spec_registered(
                    *old(self),
                    *final(self),
                    r,
                    m.id@,
                    schema_names(ts@),
                ),
            r is Ok ==> final(self).plugin_list() == old(self).plugin_list().push(plugin),
    {
        let meta = plugin.metadata();
        let id = meta.id.clone();
        let tools = plugin.tools();
        let ghost m = meta;
        let ghost ts = tools;
        let ghost id_text = id@;
        let ghost names = schema_names(tools@);
        assert(id_text == m.id@);
        let r = self.register_plugin_parts(plugin, id, tools);
        proof {
            assert(Self::spec_registered(*old(self), *self, r, id_text, names));
            assert(call_ensures(P::metadata, (&plugin,), m) && call_ensures(P::tools, (&plugin,), ts));
        }
        r
    }

    /// Is a tool of this name indexed?
    pub fn has_tool(&self, name: &str) -> (r: bool)
        requires
            self.wf(),
        ensures
            r == self.tool_names().contains(name@),
    {
        let found = position_of(&self.tool_names, name);
        proof {
            if let Some(i) = found {
                assert(self.tool_names()[i as int] == name@);
            }
        }
        found.is_some()
    }

    /// Indexed tools.
    pub fn tool_count(&self) -> (r: usize)
        requires
            self.wf(),
        ensures
            r == self.tool_names().len(),
    {
        self.tool_names.len()
    }

    /// Registered plugins.
    pub fn plugin_count(&self) -> (r: usize)
        requires
            self.wf(),
        ensures
            r == self.ids().len(),
    {
        self.plugin_ids.len()
    }

    /// Every plugin's tools, plugin by plugin in order of registration: each registered
    /// plugin is asked for its tools once, in order, and the lists it gives back are
    /// joined (see [`join_tool_lists`]).
    pub fn all_tool_schemas(&self) -> (r: Vec<ToolSchema>)
        requires
            self.wf(),
        ensures
            exists|parts: Seq<Vec<ToolSchema>>|
                {
                    &&& parts.len() == self.plugin_list().len()
                    &&& forall|i: int|
                        0 <= i < parts.len() ==> call_ensures(
                            P::tools,
                            (&self.plugin_list()[i],),
                            #[trigger] parts[i],
                        )
                    &&& r@ == #[trigger] list_views(parts).flatten()
                },
    {
        let mut lists: Vec<Vec<ToolSchema>> = Vec::new();
        let mut i: usize = 0;
        while i < self.plugins.len()
            invariant
                self.wf(),
                i <= self.plugins@.len(),
                lists@.len() == i,
                forall|k: int|
                    0 <= k < i ==> call_ensures(P::tools, (&self.plugins@[k],), #[trigger] lists@[k]),
            decreases self.plugins@.len() - i,
        {
            let tools = self.plugins[i].tools();
            lists.push(tools);
            i = i + 1;
        }
        let ghost parts = lists@;
        let r = join_tool_lists(lists);
        proof {
            assert(parts.len() == self.plugin_list().len());
        }
        r
    }

    /// Metadata of every plugin, in order of registration.
    pub fn list_plugins(&self) -> (r: Vec<&PluginMetadata>)
        requires
            self.wf(),
        ensures
            r@.len() == self.ids().len(),
            r@.len() == self.plugin_list().len(),
            forall|i: int|
                0 <= i < r@.len() ==> call_ensures(P::metadata, (&self.plugin_list()[i],), #[trigger] r@[i]),
    {
        let mut out: Vec<&PluginMetadata> = Vec::new();
        let mut i: usize = 0;
        while i < self.plugins.len()
            invariant
                self.wf(),
                i <= self.plugins@.len(),
                out@.len() == i,
                forall|k: int|
                    0 <= k < i ==> call_ensures(P::metadata, (&self.plugins@[k],), #[trigger] out@[k]),
            decreases self.plugins@.len() - i,
        {
            out.push(self.plugins[i].metadata());
            i = i + 1;
        }
        out
    }

    /// The plugin that provides a tool, with its context; `PluginNotFound` when no
    /// plugin provides it.
    pub fn resolve_tool(&self, tool_name: &str) -> (r: Result<(&P, &PluginContext), ExtendError>)
        requires
            self.wf(),
        ensures
            r is Ok <==> self.tool_names().contains(tool_name@),
            r matches Ok((_, ctx)) ==> exists|i: int|
                0 <= i < self.tool_names().len() && self.tool_names()[i] == tool_name@
                    && #[trigger] self.tool_owners()[i] == ctx.plugin_id@,
            r matches Ok((pl, ctx)) ==> exists|k: int|
                0 <= k < self.ids().len() && #[trigger] self.ids()[k] == ctx.plugin_id@ && *pl
                    == self.plugin_list()[k],
            r matches Err(e) ==> e is PluginNotFound,
    {
        match position_of(&self.tool_names, tool_name) {
            None => {
                let msg = join(owned("No plugin provides tool: "), tool_name);
                Err(ExtendError::PluginNotFound(msg))
            },
            Some(t) => {
                proof {
                    assert(self.tool_names()[t as int] == tool_name@);
                    assert(self.ids().contains(self.tool_owners()[t as int]));
                }
                match position_of(&self.plugin_ids, self.tool_owners[t].as_str()) {
                    None => {
                        proof {
                            assert(self.tool_owners()[t as int] == self.tool_owners@[t as int]@);
                        }
                        Err(ExtendError::PluginNotFound(self.tool_owners[t].clone()))
                    },
                    Some(p) => {
                        let ctx = &self.contexts[p];
                        proof {
                            assert(ctx.plugin_id@ == self.plugin_ids@[p as int]@);
                            assert(self.ids()[p as int] == ctx.plugin_id@);
                        }
                        if ctx.plugin_id == self.tool_owners[t] {
                            Ok((&self.plugins[p], ctx))
                        } else {
                            Err(ExtendError::PluginNotFound(self.tool_owners[t].clone()))
                        }
                    },
                }
            },
        }
    }
}

/// The ids of the registrations that succeeded, in order.
pub open spec fn accepted_ids(
    results: Seq<Result<(), ExtendError>>,
    regs: Seq<(Seq<char>, Seq<Seq<char>>)>,
) -> Seq<Seq<char>>
    decreases regs.len(),
{
    if regs.len() == 0 || results.len() != regs.len() {
        Seq::empty()
    } else {
        let before = accepted_ids(results.drop_last(), regs.drop_last());
        if results.last() is Ok {
            before.push(regs.last().0)
        } else {
            before
        }
    }
}

/// Over any history of registrations from an empty registry (`states[k]` before the
/// `k`-th, which reported id `regs[k].0` and tool names `regs[k].1` and came to
/// `results[k]`): the registered ids are those of the registrations that succeeded, in
/// order, and a tool name is available exactly when some successful registration
/// offered it.
pub proof fn lemma_registration_history<P>(
    states: Seq<PluginRegistry<P>>,
    results: Seq<Result<(), ExtendError>>,
    regs: Seq<(Seq<char>, Seq<Seq<char>>)>,
    name: Seq<char>,
)
    requires
        states.len() == regs.len() + 1,
        results.len() == regs.len(),
        states[0].ids().len() == 0,
        states[0].tool_names().len() == 0,
        forall|k: int| 0 <= k < states.len() ==> (#[trigger] states[k]).wf(),
        forall|k: int|
            0 <= k < regs.len() ==> #[trigger] PluginRegistry::<P>::spec_registered(
                states[k],
                states[k + 1],
                results[k],
                regs[k].0,
                regs[k].1,
            ),
    ensures
        states.last().ids() == accepted_ids(results, regs),
        states.last().tool_names().contains(name) <==> exists|i: int|
            0 <= i < regs.len() && results[i] is Ok && #[trigger] regs[i].1.contains(name),
    decreases regs.len(),
{
    if regs.len() > 0 {
        let k = regs.len() - 1;
        let st = states.take(regs.len() as int);
        lemma_registration_history(st, results.drop_last(), regs.drop_last(), name);
        assert(st.last() == states[k]);
        let before = states[k];
        let after = states.last();
        assert(PluginRegistry::<P>::spec_registered(before, after, results[k], regs[k].0, regs[k].1));
        assert(before.wf());
        if !before.ids().contains(regs[k].0) {
            lemma_add_tools(before.tool_names(), before.tool_owners(), regs[k].1, regs[k].0);
            if after.tool_names().contains(name) {
                if !before.tool_names().contains(name) {
                    assert(regs[k].1.contains(name));
                }
            }
            if before.tool_names().contains(name) {
                let j = choose|j: int| 0 <= j < before.tool_names().len() && before.tool_names()[j] == name;
                assert(after.tool_names()[j] == name);
            }
            if regs[k].1.contains(name) {
                let j = choose|j: int| 0 <= j < regs[k].1.len() && regs[k].1[j] == name;
                assert(after.tool_names().contains(regs[k].1[j]));
            }
        }
        if exists|i: int| 0 <= i < regs.len() - 1 && results.drop_last()[i] is Ok
            && #[trigger] regs.drop_last()[i].1.contains(name) {
            let i = choose|i: int| 0 <= i < regs.len() - 1 && results.drop_last()[i] is Ok
                && #[trigger] regs.drop_last()[i].1.contains(name);
            assert(results[i] is Ok && regs[i].1.contains(name));
        }
        if exists|i: int| 0 <= i < regs.len() && results[i] is Ok && #[trigger] regs[i].1.contains(name) {
            let i = choose|i: int| 0 <= i < regs.len() && results[i] is Ok && #[trigger] regs[i].1.contains(name);
            if i < k {
                assert(results.drop_last()[i] is Ok && regs.drop_last()[i].1.contains(name));
            }
        }
    }
}

} // verus!
