use nomi_core::categories::{CategoriesData, Categories, Category, Header};
use nomi_core::search::{
    Builder, Facets, Index, InnerPart, Parts, ProjectType, SearchData, u32_to_string,
};

#[test]
fn build_test() {
    let s = Facets::mods().parts.build();
    println!("{s}")
}

#[test]
fn inner_part_build_quotes_and_joins() {
    let inner = InnerPart::new()
        .add_category("forge")
        .add_category("fabric");
    assert_eq!(inner.build(), r#"["categories:forge","categories:fabric"]"#);
}

#[test]
fn empty_inner_part_builds_empty_brackets() {
    assert_eq!(InnerPart::new().build(), "[]");
}

#[test]
fn facets_build_exact() {
    assert_eq!(
        Facets::mods().build(),
        r#"[["categories:forge","categories:fabric","categories:quilt","categories:liteloader","categories:modloader","categories:rift","categories:neoforge"],["project_type:mod"]]"#
    );
    assert_eq!(Facets::shaders().build(), r#"[["project_type:shader"]]"#);
    assert_eq!(
        Facets::data_packs().build(),
        r#"[["categories:datapack"],["project_type:mod"]]"#
    );
    assert_eq!(Facets::empty().build(), "[]");
}

#[test]
fn facet_parts_compose() {
    let parts = Parts::new()
        .add_part(InnerPart::new().add_version("1.18.2").add_open_source())
        .add_project_type(ProjectType::Modpack);
    let facets = Facets::new(parts);
    assert_eq!(
        facets.build(),
        r#"[["versions:1.18.2","open_source"],["project_type:modpack"]]"#
    );
    let mut facets = facets;
    facets.set_parts(Parts::new());
    assert_eq!(facets.build(), "[]");
}

#[test]
fn project_type_strings() {
    assert_eq!(ProjectType::Mod.as_str(), "mod");
    assert_eq!(ProjectType::ResourcePack.as_str(), "resourcepack");
    assert_eq!(ProjectType::DataPack.as_facet(), "project_type:datapack");
}

#[test]
fn index_strings() {
    assert_eq!(Index::Relevance.as_str(), "relevance");
    assert_eq!(Index::Updated.as_str(), "updated");
    assert!(matches!(Index::default(), Index::Relevance));
}

#[test]
fn decimal_serialization() {
    assert_eq!(u32_to_string(0), "0");
    assert_eq!(u32_to_string(7), "7");
    assert_eq!(u32_to_string(10), "10");
    assert_eq!(u32_to_string(100), "100");
    assert_eq!(u32_to_string(4294967295), "4294967295");
}

#[test]
fn search_builder_serializes_present_fields() {
    let data = SearchData::new()
        .query("sodium".to_string())
        .index(Index::Downloads)
        .limit(20);
    let url = data.builder().build_url();
    assert_eq!(
        url,
        "https://api.modrinth.com/v2/search?query=sodium&index=downloads&limit=20"
    );
}

#[test]
fn search_builder_with_no_fields_is_bare_endpoint() {
    let url = SearchData::new().builder().build_url();
    assert_eq!(url, "https://api.modrinth.com/v2/search");
}

#[test]
fn search_builder_serializes_facets() {
    let data = SearchData::new().facets(Facets::shaders()).offset(40);
    let url = data.builder().build_url();
    assert_eq!(
        url,
        r#"https://api.modrinth.com/v2/search?facets=[["project_type:shader"]]&offset=40"#
    );
}

#[test]
fn builder_accumulates_parameters() {
    let b = Builder::new("https://api.example.com/v1/things")
        .add_parameter("a", "1".to_string())
        .add_optional_parameter("b", None)
        .add_optional_parameter("c", Some("2".to_string()));
    assert_eq!(b.build_url(), "https://api.example.com/v1/things?a=1&c=2");
}

#[test]
fn categories_builder_is_bare_endpoint() {
    assert_eq!(
        CategoriesData.builder().build_url(),
        "https://api.modrinth.com/v2/tag/category"
    );
}

fn category(name: &str, header: &str) -> Category {
    Category {
        icon: String::new(),
        name: name.to_string(),
        project_type: "mod".to_string(),
        header: header.to_string(),
    }
}

#[test]
fn unique_headers_deduplicate() {
    let cats = Categories::new(vec![
        category("adventure", "gameplay"),
        category("magic", "gameplay"),
        category("16x", "resolutions"),
        category("tech", "gameplay"),
    ]);
    let headers = cats.get_unique_headers();
    let names: Vec<&str> = headers.iter().map(|h| h.0.as_str()).collect();
    assert_eq!(names, vec!["gameplay", "resolutions"]);
}

#[test]
fn filter_header_keeps_matching_categories() {
    let cats = Categories::new(vec![
        category("adventure", "gameplay"),
        category("16x", "resolutions"),
        category("magic", "gameplay"),
    ]);
    let filtered = cats.filter_header(Header("gameplay".to_string()));
    let names: Vec<&str> = filtered.iter().map(|c| c.name.as_str()).collect();
    assert_eq!(names, vec!["adventure", "magic"]);
    assert_eq!(cats.get_all_categories().len(), 3);
    assert!(cats.filter_header(Header("misc".to_string())).is_empty());
}
