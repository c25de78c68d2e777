//! Catalog search queries: the faceted filter expression — bracketed,
//! quoted, comma-joined groups meaning AND across groups and OR within a
//! group — and the query-parameter builder the driver turns into an HTTP
//! request.

use vstd::prelude::*;
use crate::modrinth::{ProjectId, ProjectSlug};

verus! {

/// Items joined with a separator between each adjacent pair.
pub open spec fn spec_join(items: Seq<Seq<char>>, sep: Seq<char>) -> Seq<char>
    decreases items.len(),
{
    if items.len() == 0 {
        Seq::empty()
    } else if items.len() == 1 {
        items[0]
    } else {
        spec_join(items.drop_last(), sep) + sep + items.last()
    }
}

/// Join the items, writing the separator between each adjacent pair.
fn join_with(items: &Vec<String>, sep: &str) -> (r: String)
    ensures
        r@ == spec_join(items@.map_values(|s: String| s@), sep@),
{
    let ghost views = items@.map_values(|s: String| s@);
    if items.len() == 0 {
        return String::new();
    }
    let mut r = items[0].clone();
    let mut i: usize = 1;
    while i < items.len()
        invariant
            1 <= i <= items@.len(),
            views == items@.map_values(|s: String| s@),
            views.len() == items@.len(),
            r@ == spec_join(views.take(i as int), sep@),
        decreases items@.len() - i,
    {
        r.append(sep);
        r.append(items[i].as_str());
        proof {
            assert(views.take(i + 1 as int).drop_last() =~= views.take(i as int));
            assert(views.take(i + 1 as int).last() == views[i as int]);
        }
        i = i + 1;
    }
    proof {
        assert(views.take(i as int) =~= views);
    }
    r
}

/// A facet item wrapped in double quotes.
pub open spec fn spec_quote(s: Seq<char>) -> Seq<char> {
    seq!['"'] + s + seq!['"']
}

/// The bracketed, quoted, comma-joined form of one facet group.
pub open spec fn spec_group_build(items: Seq<Seq<char>>) -> Seq<char> {
    seq!['['] + spec_join(items.map_values(|s: Seq<char>| spec_quote(s)), seq![',']) + seq![']']
}

/// The bracketed, comma-joined form of a whole facet expression.
pub open spec fn spec_facets_build(groups: Seq<Seq<Seq<char>>>) -> Seq<char> {
    seq!['['] + spec_join(
        groups.map_values(|g: Seq<Seq<char>>| spec_group_build(g)),
        seq![','],
    ) + seq![']']
}

/// A `categories:` facet item.
pub open spec fn spec_category_facet(category: Seq<char>) -> Seq<char> {
    "categories:"@ + category
}

/// A `versions:` facet item.
pub open spec fn spec_version_facet(version: Seq<char>) -> Seq<char> {
    "versions:"@ + version
}

/// The project types the catalog distinguishes.
#[derive(Debug, Clone, Copy, PartialEq, Eq)]
pub enum ProjectType {
    Mod,
    Modpack,
    ResourcePack,
    Shader,
    Plugin,
    DataPack,
}

impl ProjectType {
    pub open spec fn spec_str(&self) -> Seq<char> {
        match self {
            ProjectType::Mod => "mod"@,
            ProjectType::Modpack => "modpack"@,
            ProjectType::ResourcePack => "resourcepack"@,
            ProjectType::Shader => "shader"@,
            ProjectType::Plugin => "plugin"@,
            ProjectType::DataPack => "datapack"@,
        }
    }

    pub fn as_str(&self) -> (r: &str)
        ensures
            r@ == self.spec_str(),
    {
        match self {
            ProjectType::Mod => "mod",
            ProjectType::Modpack => "modpack",
            ProjectType::ResourcePack => "resourcepack",
            ProjectType::Shader => "shader",
            ProjectType::Plugin => "plugin",
            ProjectType::DataPack => "datapack",
        }
    }

    pub fn as_facet(&self) -> (r: String)
        ensures
            r@ == spec_project_type_facet(*self),
    {
        let mut s = String::from_str("project_type:");
        s.append(self.as_str());
        s
    }
}

/// A `project_type:` facet item.
pub open spec fn spec_project_type_facet(pt: ProjectType) -> Seq<char> {
    "project_type:"@ + pt.spec_str()
}

/// One facet group: all items inside are joined by OR — a mod satisfying
/// any of them satisfies the group.
#[derive(Debug)]
pub struct InnerPart(Vec<String>);

impl InnerPart {
    pub closed spec fn spec_items(&self) -> Seq<Seq<char>> {
        self.0@.map_values(|s: String| s@)
    }

    pub fn new() -> (p: Self)
        ensures
            p.spec_items() == Seq::<Seq<char>>::empty(),
    {
        proof {
            assert(Seq::<String>::empty().map_values(|s: String| s@) =~= Seq::<Seq<
                char,
            >>::empty());
        }
        InnerPart(Vec::new())
    }

    pub fn add_project_type(self, project_type: ProjectType) -> (p: Self)
        ensures
            p.spec_items() == self.spec_items().push(spec_project_type_facet(project_type)),
    {
        let mut items = self.0;
        items.push(project_type.as_facet());
        proof {
            assert(items@.map_values(|s: String| s@) =~= self.spec_items().push(
                spec_project_type_facet(project_type),
            ));
        }
        InnerPart(items)
    }

    pub fn add_category(self, category: &str) -> (p: Self)
        ensures
            p.spec_items() == self.spec_items().push(spec_category_facet(category@)),
    {
        let mut item = String::from_str("categories:");
        item.append(category);
        let mut items = self.0;
        items.push(item);
        proof {
            assert(items@.map_values(|s: String| s@) =~= self.spec_items().push(
                spec_category_facet(category@),
            ));
        }
        InnerPart(items)
    }

    pub fn add_version(self, version: &str) -> (p: Self)
        ensures
            p.spec_items() == self.spec_items().push(spec_version_facet(version@)),
    {
        let mut item = String::from_str("versions:");
        item.append(version);
        let mut items = self.0;
        items.push(item);
        proof {
            assert(items@.map_values(|s: String| s@) =~= self.spec_items().push(
                spec_version_facet(version@),
            ));
        }
        InnerPart(items)
    }

    pub fn add_client_side(self) -> (p: Self)
        ensures
            p.spec_items() == self.spec_items().push("client_side"@),
    {
        let mut items = self.0;
        items.push(String::from_str("client_side"));
        proof {
            assert(items@.map_values(|s: String| s@) =~= self.spec_items().push("client_side"@));
        }
        InnerPart(items)
    }

    pub fn add_server_side(self) -> (p: Self)
        ensures
            p.spec_items() == self.spec_items().push("server_side"@),
    {
        let mut items = self.0;
        items.push(String::from_str("server_side"));
        proof {
            assert(items@.map_values(|s: String| s@) =~= self.spec_items().push("server_side"@));
        }
        InnerPart(items)
    }

    pub fn add_open_source(self) -> (p: Self)
        ensures
            p.spec_items() == self.spec_items().push("open_source"@),
    {
        let mut items = self.0;
        items.push(String::from_str("open_source"));
        proof {
            assert(items@.map_values(|s: String| s@) =~= self.spec_items().push("open_source"@));
        }
        InnerPart(items)
    }

    /// The group's serialized form: its items quoted and comma-joined,
    /// inside brackets.
    pub fn build(&self) -> (r: String)
        ensures
            r@ == spec_group_build(self.spec_items()),
    {
        let mut quoted: Vec<String> = Vec::new();
        let mut i: usize = 0;
        while i < self.0.len()
            invariant
                0 <= i <= self.0@.len(),
                quoted@.map_values(|s: String| s@) == self.spec_items().take(i as int).map_values(
                    |s: Seq<char>| spec_quote(s),
                ),
            decreases self.0@.len() - i,
        {
            let mut q = String::from_str("\"");
            q.append(self.0[i].as_str());
            q.append("\"");
            proof {
                reveal_strlit("\"");
                assert(q@ == spec_quote(self.0@[i as int]@));
            }
            quoted.push(q);
            proof {
                assert(self.spec_items().take(i + 1 as int) =~= self.spec_items().take(
                    i as int,
                ).push(self.spec_items()[i as int]));
                assert(self.spec_items().take(i as int).push(self.spec_items()[i as int])
                    .map_values(|s: Seq<char>| spec_quote(s)) =~= self.spec_items().take(
                    i as int,
                ).map_values(|s: Seq<char>| spec_quote(s)).push(
                    spec_quote(self.spec_items()[i as int]),
                ));
                assert(quoted@.map_values(|s: String| s@) =~= self.spec_items().take(
                    i as int,
                ).map_values(|s: Seq<char>| spec_quote(s)).push(
                    spec_quote(self.spec_items()[i as int]),
                ));
            }
            i = i + 1;
        }
        proof {
            assert(self.spec_items().take(i as int) =~= self.spec_items());
        }
        let joined = join_with(&quoted, ",");
        let mut r = String::from_str("[");
        r.append(joined.as_str());
        r.append("]");
        proof {
            reveal_strlit("[");
            reveal_strlit("]");
            reveal_strlit(",");
            assert(","@ =~= seq![',']);
            assert("["@ =~= seq!['[']);
            assert("]"@ =~= seq![']']);
        }
        r
    }
}

impl Default for InnerPart {
    fn default() -> (p: Self)
        ensures
            p.spec_items() == Seq::<Seq<char>>::empty(),
    {
        InnerPart::new()
    }
}

/// The groups of a facet expression, joined by AND: every group must be
/// satisfied.
#[derive(Debug)]
pub struct Parts(Vec<InnerPart>);

impl Parts {
    pub closed spec fn spec_groups(&self) -> Seq<Seq<Seq<char>>> {
        self.0@.map_values(|p: InnerPart| p.spec_items())
    }

    pub fn new() -> (p: Self)
        ensures
            p.spec_groups() == Seq::<Seq<Seq<char>>>::empty(),
    {
        proof {
            assert(Seq::<InnerPart>::empty().map_values(|p: InnerPart| p.spec_items()) =~= Seq::<
                Seq<Seq<char>>,
            >::empty());
        }
        Parts(Vec::new())
    }

    pub fn add_part(self, part: InnerPart) -> (p: Self)
        ensures
            p.spec_groups() == self.spec_groups().push(part.spec_items()),
    {
        let mut groups = self.0;
        let ghost items = part.spec_items();
        groups.push(part);
        proof {
            assert(groups@.map_values(|q: InnerPart| q.spec_items()) =~= self.spec_groups().push(
                items,
            ));
        }
        Parts(groups)
    }

    /// Append a group holding a single project-type item.
    pub fn add_project_type(self, project_type: ProjectType) -> (p: Self)
        ensures
            p.spec_groups() == self.spec_groups().push(
                seq![spec_project_type_facet(project_type)],
            ),
    {
        let inner = InnerPart::new().add_project_type(project_type);
        proof {
            assert(inner.spec_items() =~= seq![spec_project_type_facet(project_type)]);
        }
        self.add_part(inner)
    }

    /// The whole expression: each group's serialized form, comma-joined,
    /// inside brackets.
    pub fn build(&self) -> (r: String)
        ensures
            r@ == spec_facets_build(self.spec_groups()),
    {
        let mut built: Vec<String> = Vec::new();
        let mut i: usize = 0;
        while i < self.0.len()
            invariant
                0 <= i <= self.0@.len(),
                built@.map_values(|s: String| s@) == self.spec_groups().take(i as int).map_values(
                    |g: Seq<Seq<char>>| spec_group_build(g),
                ),
            decreases self.0@.len() - i,
        {
            let b = self.0[i].build();
            built.push(b);
            proof {
                assert(self.spec_groups().take(i + 1 as int) =~= self.spec_groups().take(
                    i as int,
                ).push(self.spec_groups()[i as int]));
                assert(self.spec_groups().take(i as int).push(self.spec_groups()[i as int])
                    .map_values(|g: Seq<Seq<char>>| spec_group_build(g)) =~= self.spec_groups()
                    .take(i as int).map_values(|g: Seq<Seq<char>>| spec_group_build(g)).push(
                    spec_group_build(self.spec_groups()[i as int]),
                ));
                assert(built@.map_values(|s: String| s@) =~= self.spec_groups().take(
                    i as int,
                ).map_values(|g: Seq<Seq<char>>| spec_group_build(g)).push(
                    spec_group_build(self.spec_groups()[i as int]),
                ));
            }
            i = i + 1;
        }
        proof {
            assert(self.spec_groups().take(i as int) =~= self.spec_groups());
        }
        let joined = join_with(&built, ",");
        let mut r = String::from_str("[");
        r.append(joined.as_str());
        r.append("]");
        proof {
            reveal_strlit("[");
            reveal_strlit("]");
            reveal_strlit(",");
            assert(","@ =~= seq![',']);
            assert("["@ =~= seq!['[']);
            assert("]"@ =~= seq![']']);
        }
        r
    }
}

impl Default for Parts {
    fn default() -> (p: Self)
        ensures
            p.spec_groups() == Seq::<Seq<Seq<char>>>::empty(),
    {
        Parts::new()
    }
}

/// A complete faceted filter expression.
#[derive(Debug)]
pub struct Facets {
    pub parts: Parts,
}

impl Facets {
    pub fn new(parts: Parts) -> (f: Self)
        ensures
            f.parts.spec_groups() == parts.spec_groups(),
    {
        Facets { parts }
    }

    pub fn empty() -> (f: Self)
        ensures
            f.parts.spec_groups() == Seq::<Seq<Seq<char>>>::empty(),
    {
        Facets { parts: Parts::new() }
    }

    /// The facets of a mod search: any mod loader, and the mod project
    /// type.
    pub fn mods() -> (f: Self)
        ensures
            f.parts.spec_groups() == seq![
                seq![
                    spec_category_facet("forge"@),
                    spec_category_facet("fabric"@),
                    spec_category_facet("quilt"@),
                    spec_category_facet("liteloader"@),
                    spec_category_facet("modloader"@),
                    spec_category_facet("rift"@),
                    spec_category_facet("neoforge"@),
                ],
                seq![spec_project_type_facet(ProjectType::Mod)],
            ],
    {
        let parts = Parts::new().add_part(
            InnerPart::new()
                .add_category("forge")
                .add_category("fabric")
                .add_category("quilt")
                .add_category("liteloader")
                .add_category("modloader")
                .add_category("rift")
                .add_category("neoforge"),
        ).add_project_type(ProjectType::Mod);
        proof {
            assert(parts.spec_groups() =~~= seq![
                seq![
                    spec_category_facet("forge"@),
                    spec_category_facet("fabric"@),
                    spec_category_facet("quilt"@),
                    spec_category_facet("liteloader"@),
                    spec_category_facet("modloader"@),
                    spec_category_facet("rift"@),
                    spec_category_facet("neoforge"@),
                ],
                seq![spec_project_type_facet(ProjectType::Mod)],
            ]);
        }
        Facets { parts }
    }

    /// The facets of a plugin search: any server platform, and the mod
    /// project type.
    pub fn plugins() -> (f: Self)
        ensures
            f.parts.spec_groups() == seq![
                seq![
                    spec_category_facet("bukkit"@),
                    spec_category_facet("spigot"@),
                    spec_category_facet("paper"@),
                    spec_category_facet("purpur"@),
                    spec_category_facet("sponge"@),
                    spec_category_facet("bungeecord"@),
                    spec_category_facet("waterfall"@),
                    spec_category_facet("velocity"@),
                    spec_category_facet("folia"@),
                ],
                seq![spec_project_type_facet(ProjectType::Mod)],
            ],
    {
        let parts = Parts::new().add_part(
            InnerPart::new()
                .add_category("bukkit")
                .add_category("spigot")
                .add_category("paper")
                .add_category("purpur")
                .add_category("sponge")
                .add_category("bungeecord")
                .add_category("waterfall")
                .add_category("velocity")
                .add_category("folia"),
        ).add_project_type(ProjectType::Mod);
        proof {
            assert(parts.spec_groups() =~~= seq![
                seq![
                    spec_category_facet("bukkit"@),
                    spec_category_facet("spigot"@),
                    spec_category_facet("paper"@),
                    spec_category_facet("purpur"@),
                    spec_category_facet("sponge"@),
                    spec_category_facet("bungeecord"@),
                    spec_category_facet("waterfall"@),
                    spec_category_facet("velocity"@),
                    spec_category_facet("folia"@),
                ],
                seq![spec_project_type_facet(ProjectType::Mod)],
            ]);
        }
        Facets { parts }
    }

    /// The facets of a data-pack search.
    pub fn data_packs() -> (f: Self)
        ensures
            f.parts.spec_groups() == seq![
                seq![spec_category_facet("datapack"@)],
                seq![spec_project_type_facet(ProjectType::Mod)],
            ],
    {
        let parts = Parts::new().add_part(InnerPart::new().add_category("datapack"))
            .add_project_type(ProjectType::Mod);
        proof {
            assert(parts.spec_groups() =~~= seq![
                seq![spec_category_facet("datapack"@)],
                seq![spec_project_type_facet(ProjectType::Mod)],
            ]);
        }
        Facets { parts }
    }

    /// The facets of a shader search.
    pub fn shaders() -> (f: Self)
        ensures
            f.parts.spec_groups() == seq![seq![spec_project_type_facet(ProjectType::Shader)]],
    {
        let parts = Parts::new().add_project_type(ProjectType::Shader);
        proof {
            assert(parts.spec_groups() =~~= seq![
                seq![spec_project_type_facet(ProjectType::Shader)],
            ]);
        }
        Facets { parts }
    }

    /// The facets of a resource-pack search.
    pub fn resource_packs() -> (f: Self)
        ensures
            f.parts.spec_groups() == seq![
                seq![spec_project_type_facet(ProjectType::ResourcePack)],
            ],
    {
        let parts = Parts::new().add_project_type(ProjectType::ResourcePack);
        proof {
            assert(parts.spec_groups() =~~= seq![
                seq![spec_project_type_facet(ProjectType::ResourcePack)],
            ]);
        }
        Facets { parts }
    }

    /// The facets of a modpack search.
    pub fn modpacks() -> (f: Self)
        ensures
            f.parts.spec_groups() == seq![seq![spec_project_type_facet(ProjectType::Modpack)]],
    {
        let parts = Parts::new().add_project_type(ProjectType::Modpack);
        proof {
            assert(parts.spec_groups() =~~= seq![
                seq![spec_project_type_facet(ProjectType::Modpack)],
            ]);
        }
        Facets { parts }
    }

    pub fn set_parts(&mut self, parts: Parts)
        ensures
            final(self).parts.spec_groups() == parts.spec_groups(),
    {
        self.parts = parts;
    }

    pub fn build(&self) -> (r: String)
        ensures
            r@ == spec_facets_build(self.parts.spec_groups()),
    {
        self.parts.build()
    }
}

/// The orderings a search can request.
#[derive(Debug, Clone, Copy, PartialEq, Eq)]
pub enum Index {
    Relevance,
    Downloads,
    Follows,
    Newest,
    Updated,
}

impl Index {
    pub open spec fn spec_str(&self) -> Seq<char> {
        match self {
            Index::Relevance => "relevance"@,
            Index::Downloads => "downloads"@,
            Index::Follows => "follows"@,
            Index::Newest => "newest"@,
            Index::Updated => "updated"@,
        }
    }

    pub fn as_str(&self) -> (r: &str)
        ensures
            r@ == self.spec_str(),
    {
        match self {
            Index::Relevance => "relevance",
            Index::Downloads => "downloads",
            Index::Follows => "follows",
            Index::Newest => "newest",
            Index::Updated => "updated",
        }
    }
}

impl Default for Index {
    fn default() -> (r: Self)
        ensures
            r is Relevance,
    {
        Index::Relevance
    }
}

/// One query parameter: a name and its serialized value.
pub open spec fn spec_param(name: Seq<char>, value: Seq<char>) -> Seq<char> {
    name + seq!['='] + value
}

/// The serialized URL of a query: the endpoint, and — when any parameter is
/// present — a `?` followed by the `&`-joined `name=value` pairs.
pub open spec fn spec_built_url(url: Seq<char>, params: Seq<(Seq<char>, Seq<char>)>) -> Seq<
    char,
> {
    if params.len() == 0 {
        url
    } else {
        url + seq!['?'] + spec_join(
            params.map_values(|p: (Seq<char>, Seq<char>)| spec_param(p.0, p.1)),
            seq!['&'],
        )
    }
}

/// Accumulates the endpoint and query parameters of one catalog request.
#[derive(Debug)]
pub struct Builder {
    url: String,
    params: Vec<(String, String)>,
}

impl Builder {
    pub closed spec fn spec_url(&self) -> Seq<char> {
        self.url@
    }

    pub closed spec fn spec_params(&self) -> Seq<(Seq<char>, Seq<char>)> {
        self.params@.map_values(|p: (String, String)| (p.0@, p.1@))
    }

    pub fn new(url: &str) -> (b: Self)
        ensures
            b.spec_url() == url@,
            b.spec_params() == Seq::<(Seq<char>, Seq<char>)>::empty(),
    {
        proof {
            assert(Seq::<(String, String)>::empty().map_values(
                |p: (String, String)| (p.0@, p.1@),
            ) =~= Seq::<(Seq<char>, Seq<char>)>::empty());
        }
        Builder { url: String::from_str(url), params: Vec::new() }
    }

    pub fn add_parameter(self, name: &str, value: String) -> (b: Self)
        ensures
            b.spec_url() == self.spec_url(),
            b.spec_params() == self.spec_params().push((name@, value@)),
    {
        let mut params = self.params;
        let ghost value_view = value@;
        params.push((String::from_str(name), value));
        proof {
            assert(params@.map_values(|p: (String, String)| (p.0@, p.1@)) =~= self.spec_params()
                .push((name@, value_view)));
        }
        Builder { url: self.url, params }
    }

    /// Add the parameter only when a value is present, as optional search
    /// fields are serialized.
    pub fn add_optional_parameter(self, name: &str, value: Option<String>) -> (b: Self)
        ensures
            b.spec_url() == self.spec_url(),
            match value {
                Some(v) => b.spec_params() == self.spec_params().push((name@, v@)),
                None => b.spec_params() == self.spec_params(),
            },
    {
        match value {
            Some(v) => self.add_parameter(name, v),
            None => self,
        }
    }

    /// Serialize the request URL.
    pub fn build_url(&self) -> (r: String)
        ensures
            r@ == spec_built_url(self.spec_url(), self.spec_params()),
    {
        if self.params.len() == 0 {
            return self.url.clone();
        }
        let mut pairs: Vec<String> = Vec::new();
        let mut i: usize = 0;
        proof {
            reveal_strlit("=");
        }
        while i < self.params.len()
            invariant
                0 <= i <= self.params@.len(),
                "="@ == seq!['='],
                pairs@.map_values(|s: String| s@) == self.spec_params().take(i as int).map_values(
                    |p: (Seq<char>, Seq<char>)| spec_param(p.0, p.1),
                ),
            decreases self.params@.len() - i,
        {
            let mut pair = self.params[i].0.clone();
            pair.append("=");
            pair.append(self.params[i].1.as_str());
            pairs.push(pair);
            proof {
                assert(self.spec_params().take(i + 1 as int) =~= self.spec_params().take(
                    i as int,
                ).push(self.spec_params()[i as int]));
                assert(self.spec_params().take(i as int).push(self.spec_params()[i as int])
                    .map_values(|p: (Seq<char>, Seq<char>)| spec_param(p.0, p.1))
                    =~= self.spec_params().take(i as int).map_values(
                    |p: (Seq<char>, Seq<char>)| spec_param(p.0, p.1),
                ).push(spec_param(self.spec_params()[i as int].0, self.spec_params()[i as int].1)));
                assert(pair@ == spec_param(
                    self.spec_params()[i as int].0,
                    self.spec_params()[i as int].1,
                ));
                assert(pairs@.map_values(|s: String| s@) =~= self.spec_params().take(
                    i as int,
                ).map_values(|p: (Seq<char>, Seq<char>)| spec_param(p.0, p.1)).push(
                    spec_param(self.spec_params()[i as int].0, self.spec_params()[i as int].1),
                ));
            }
            i = i + 1;
        }
        proof {
            assert(self.spec_params().take(i as int) =~= self.spec_params());
        }
        let joined = join_with(&pairs, "&");
        let mut r = self.url.clone();
        r.append("?");
        r.append(joined.as_str());
        proof {
            reveal_strlit("?");
            reveal_strlit("&");
            assert("?"@ =~= seq!['?']);
            assert("&"@ =~= seq!['&']);
        }
        r
    }
}

/// The decimal digit characters.
pub open spec fn spec_digit_char(d: int) -> char {
    if d == 0 {
        '0'
    } else if d == 1 {
        '1'
    } else if d == 2 {
        '2'
    } else if d == 3 {
        '3'
    } else if d == 4 {
        '4'
    } else if d == 5 {
        '5'
    } else if d == 6 {
        '6'
    } else if d == 7 {
        '7'
    } else if d == 8 {
        '8'
    } else {
        '9'
    }
}

/// The decimal representation of a number, most significant digit first.
pub open spec fn spec_decimal(n: nat) -> Seq<char>
    decreases n,
{
    if n < 10 {
        seq![spec_digit_char(n as int)]
    } else {
        spec_decimal(n / 10) + seq![spec_digit_char((n % 10) as int)]
    }
}

fn digit_str(d: u32) -> (r: &'static str)
    requires
        d < 10,
    ensures
        r@ == seq![spec_digit_char(d as int)],
{
    let r = match d {
        0 => "0",
        1 => "1",
        2 => "2",
        3 => "3",
        4 => "4",
        5 => "5",
        6 => "6",
        7 => "7",
        8 => "8",
        _ => "9",
    };
    proof {
        reveal_strlit("0");
        reveal_strlit("1");
        reveal_strlit("2");
        reveal_strlit("3");
        reveal_strlit("4");
        reveal_strlit("5");
        reveal_strlit("6");
        reveal_strlit("7");
        reveal_strlit("8");
        reveal_strlit("9");
        assert(r@ =~= seq![spec_digit_char(d as int)]);
    }
    r
}

/// Serialize a number the way a query parameter carries it.
pub fn u32_to_string(n: u32) -> (r: String)
    ensures
        r@ == spec_decimal(n as nat),
    decreases n,
{
    if n < 10 {
        String::from_str(digit_str(n))
    } else {
        assert(n / 10 < n);
        let mut r = u32_to_string(n / 10);
        r.append(digit_str(n % 10));
        r
    }
}

/// The parameter entry an optional field contributes: one pair when the
/// field is present, nothing otherwise.
pub open spec fn spec_opt_entry(name: Seq<char>, v: Option<Seq<char>>) -> Seq<(
    Seq<char>,
    Seq<char>,
)> {
    match v {
        Some(s) => seq![(name, s)],
        None => Seq::empty(),
    }
}

impl SearchData {
    /// Assemble the search request: the endpoint with one parameter per
    /// present field, in a fixed order — the facet expression serialized,
    /// the index as its keyword, offset and limit in decimal.
    pub fn builder(&self) -> (b: Builder)
        ensures
            b.spec_url() == "https://api.modrinth.com/v2/search"@,
            b.spec_params() == spec_opt_entry("query"@, self.spec_query()) + spec_opt_entry(
                "facets"@,
                match self.spec_facets() {
                    Some(g) => Some(spec_facets_build(g)),
                    None => None,
                },
            ) + spec_opt_entry(
                "index"@,
                match self.spec_index() {
                    Some(ix) => Some(ix.spec_str()),
                    None => None,
                },
            ) + spec_opt_entry(
                "offset"@,
                match self.spec_offset() {
                    Some(o) => Some(spec_decimal(o as nat)),
                    None => None,
                },
            ) + spec_opt_entry(
                "limit"@,
                match self.spec_limit() {
                    Some(l) => Some(spec_decimal(l as nat)),
                    None => None,
                },
            ),
    {
        let b = Builder::new("https://api.modrinth.com/v2/search");
        let b = match &self.query {
            Some(q) => b.add_parameter("query", q.clone()),
            None => b,
        };
        let b = match &self.facets {
            Some(f) => b.add_parameter("facets", f.build()),
            None => b,
        };
        let b = match &self.index {
            Some(ix) => b.add_parameter("index", String::from_str(ix.as_str())),
            None => b,
        };
        let b = match &self.offset {
            Some(o) => b.add_parameter("offset", u32_to_string(*o)),
            None => b,
        };
        let b = match &self.limit {
            Some(l) => b.add_parameter("limit", u32_to_string(*l as u32)),
            None => b,
        };
        proof {
            assert(b.spec_params() =~= spec_opt_entry("query"@, self.spec_query())
                + spec_opt_entry(
                "facets"@,
                match self.spec_facets() {
                    Some(g) => Some(spec_facets_build(g)),
                    None => None,
                },
            ) + spec_opt_entry(
                "index"@,
                match self.spec_index() {
                    Some(ix) => Some(ix.spec_str()),
                    None => None,
                },
            ) + spec_opt_entry(
                "offset"@,
                match self.spec_offset() {
                    Some(o) => Some(spec_decimal(o as nat)),
                    None => None,
                },
            ) + spec_opt_entry(
                "limit"@,
                match self.spec_limit() {
                    Some(l) => Some(spec_decimal(l as nat)),
                    None => None,
                },
            ));
        }
        b
    }
}

/// One search result.
#[derive(Debug)]
pub struct Hit {
    pub slug: ProjectSlug,
    pub title: String,
    pub description: String,
    pub categories: Vec<String>,
    pub client_side: String,
    pub server_side: String,
    pub project_type: String,
    pub downloads: i64,
    pub icon_url: String,
    pub color: i64,
    pub thread_id: Option<String>,
    pub monetization_status: Option<String>,
    pub project_id: ProjectId,
    pub author: String,
    pub display_categories: Vec<String>,
    pub versions: Vec<String>,
    pub follows: i64,
    pub date_created: String,
    pub date_modified: String,
    pub latest_version: String,
    pub license: String,
    pub gallery: Vec<String>,
    pub featured_gallery: Option<String>,
}

/// A page of search results.
#[derive(Debug)]
pub struct Search {
    pub hits: Vec<Hit>,
    pub offset: i64,
    pub limit: i64,
    pub total_hits: i64,
}

/// Parameters of a search query. Absent fields are omitted from the
/// request.
#[derive(Debug)]
pub struct SearchData {
    query: Option<String>,
    facets: Option<Facets>,
    index: Option<Index>,
    offset: Option<u32>,
    limit: Option<u8>,
}

impl SearchData {
    pub closed spec fn spec_query(&self) -> Option<Seq<char>> {
        match &self.query {
            Some(q) => Some(q@),
            None => None,
        }
    }

    pub closed spec fn spec_facets(&self) -> Option<Seq<Seq<Seq<char>>>> {
        match &self.facets {
            Some(f) => Some(f.parts.spec_groups()),
            None => None,
        }
    }

    pub closed spec fn spec_index(&self) -> Option<Index> {
        self.index
    }

    pub closed spec fn spec_offset(&self) -> Option<u32> {
        self.offset
    }

    pub closed spec fn spec_limit(&self) -> Option<u8> {
        self.limit
    }

    pub fn new() -> (d: Self)
        ensures
            d.spec_query() is None,
            d.spec_facets() is None,
            d.spec_index() is None,
            d.spec_offset() is None,
            d.spec_limit() is None,
    {
        SearchData { query: None, facets: None, index: None, offset: None, limit: None }
    }

    pub fn query(self, query: String) -> (d: Self)
        ensures
            d.spec_query() == Some(query@),
            d.spec_facets() == self.spec_facets(),
            d.spec_index() == self.spec_index(),
            d.spec_offset() == self.spec_offset(),
            d.spec_limit() == self.spec_limit(),
    {
        SearchData { query: Some(query), ..self }
    }

    pub fn facets(self, facets: Facets) -> (d: Self)
        ensures
            d.spec_facets() == Some(facets.parts.spec_groups()),
            d.spec_query() == self.spec_query(),
            d.spec_index() == self.spec_index(),
            d.spec_offset() == self.spec_offset(),
            d.spec_limit() == self.spec_limit(),
    {
        SearchData { facets: Some(facets), ..self }
    }

    pub fn index(self, index: Index) -> (d: Self)
        ensures
            d.spec_index() == Some(index),
            d.spec_query() == self.spec_query(),
            d.spec_facets() == self.spec_facets(),
            d.spec_offset() == self.spec_offset(),
            d.spec_limit() == self.spec_limit(),
    {
        SearchData { index: Some(index), ..self }
    }

    pub fn offset(self, offset: u32) -> (d: Self)
        ensures
            d.spec_offset() == Some(offset),
            d.spec_query() == self.spec_query(),
            d.spec_facets() == self.spec_facets(),
            d.spec_index() == self.spec_index(),
            d.spec_limit() == self.spec_limit(),
    {
        SearchData { offset: Some(offset), ..self }
    }

    /// Must be in the range 0..100.
    pub fn limit(self, limit: u8) -> (d: Self)
        ensures
            d.spec_limit() == Some(limit),
            d.spec_query() == self.spec_query(),
            d.spec_facets() == self.spec_facets(),
            d.spec_index() == self.spec_index(),
            d.spec_offset() == self.spec_offset(),
    {
        SearchData { limit: Some(limit), ..self }
    }
}

} // verus!
