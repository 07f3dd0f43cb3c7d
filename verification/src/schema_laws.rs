//! The tool calls the library sends follow the argument schemas it offers
//! the model.

use vstd::prelude::*;

use crate::json::{spec_field, spec_lookup, spec_str_field, spec_str_items, SpecJson};
use crate::laws::{lemma_filter_map_inverts_map, lemma_lookup_first, tool_type_of};
use crate::proto::{
    SpecApplyFileDiffs, SpecFileGlobV2, SpecReadFiles, SpecRunShellCommand, SpecSearchCodebase,
    SpecTool,
};
use crate::tool_defs::{
    spec_apply_file_diffs_parameters, spec_file_glob_v2_parameters, spec_grep_parameters,
    spec_read_files_parameters, spec_run_shell_command_parameters, spec_search_codebase_parameters,
};
use crate::json::spec_str_of;
use crate::tool_defs::{sj_object_schema, sj_prop, sj_string_array, sj_typed, spec_tool_definition};
use crate::translate::{js, js_strings, spec_tool_name_args};

verus! {

/// The properties an object schema declares.
pub open spec fn schema_properties(schema: SpecJson) -> Seq<(Seq<char>, SpecJson)> {
    match spec_field(schema, "properties"@) {
        Some(SpecJson::Object(ms)) => ms,
        _ => Seq::empty(),
    }
}

/// The property names an object schema requires.
pub open spec fn schema_required(schema: SpecJson) -> Seq<Seq<char>> {
    match spec_field(schema, "required"@) {
        Some(SpecJson::Array(items)) => spec_str_items(items),
        _ => Seq::empty(),
    }
}

/// Whether a JSON value follows a schema: its type is the schema's `type`;
/// an object holds every required property and only declared ones, each
/// following its property's schema; each item of an array follows the
/// schema's `items`.
pub open spec fn conforms(v: SpecJson, schema: SpecJson) -> bool
    decreases v,
{
    match v {
        SpecJson::Object(ms) => {
            &&& spec_str_field(schema, "type"@) == Some("object"@)
            &&& forall|r: Seq<char>|
                #[trigger] schema_required(schema).contains(r) ==> spec_lookup(ms, r) is Some
            &&& forall|i: int|
                0 <= i < ms.len() ==> match spec_lookup(schema_properties(schema), (#[trigger] ms[i]).0) {
                    Some(p) => conforms(ms[i].1, p),
                    None => false,
                }
        },
        SpecJson::Array(items) => {
            &&& spec_str_field(schema, "type"@) == Some("array"@)
            &&& forall|i: int|
                0 <= i < items.len() ==> match spec_field(schema, "items"@) {
                    Some(p) => conforms(#[trigger] items[i], p),
                    None => false,
                }
        },
        SpecJson::Str(_) => spec_str_field(schema, "type"@) == Some("string"@),
        SpecJson::Bool(_) => spec_str_field(schema, "type"@) == Some("boolean"@),
        SpecJson::Int(_) => spec_str_field(schema, "type"@) == Some("integer"@),
        _ => false,
    }
}

proof fn lemma_object_schema(props: Seq<(Seq<char>, SpecJson)>, required: Seq<Seq<char>>)
    ensures
        spec_str_field(sj_object_schema(props, required), "type"@) == Some("object"@),
        schema_properties(sj_object_schema(props, required)) == props,
        schema_required(sj_object_schema(props, required)) == required,
{
    reveal_strlit("type");
    reveal_strlit("properties");
    reveal_strlit("required");
    assert("type"@.len() == 4 && "properties"@.len() == 10 && "required"@.len() == 8);
    let m = sj_object_schema(props, required)->Object_0;
    lemma_lookup_first(m, "type"@, 0);
    lemma_lookup_first(m, "properties"@, 1);
    lemma_lookup_first(m, "required"@, 2);
    lemma_filter_map_inverts_map(
        required,
        |s: Seq<char>| SpecJson::Str(s),
        |j: SpecJson| spec_str_of(j),
    );
}

proof fn lemma_prop_type(ty: Seq<char>, desc: Seq<char>)
    ensures
        spec_str_field(sj_prop(ty, desc), "type"@) == Some(ty),
        spec_str_field(sj_typed(ty), "type"@) == Some(ty),
{
    lemma_lookup_first(sj_prop(ty, desc)->Object_0, "type"@, 0);
    lemma_lookup_first(sj_typed(ty)->Object_0, "type"@, 0);
}

proof fn lemma_strings_conform(items: Seq<Seq<char>>, desc: Seq<char>)
    ensures
        conforms(js_strings(items), sj_string_array(desc)),
{
    reveal_strlit("type");
    reveal_strlit("items");
    assert("type"@.len() == 4 && "items"@.len() == 5);
    let m = sj_string_array(desc)->Object_0;
    lemma_lookup_first(m, "type"@, 0);
    lemma_lookup_first(m, "items"@, 1);
    lemma_prop_type("string"@, Seq::empty());
    let a = js_strings(items)->Array_0;
    assert forall|i: int| 0 <= i < a.len() implies match spec_field(sj_string_array(desc), "items"@) {
        Some(p) => conforms(#[trigger] a[i], p),
        None => false,
    } by {
        assert(a[i] == SpecJson::Str(items[i]));
    }
}

/// An object conforms to an object schema when it holds every required
/// property and each of its members follows its declared property.
proof fn lemma_object_conforms(
    ms: Seq<(Seq<char>, SpecJson)>,
    props: Seq<(Seq<char>, SpecJson)>,
    required: Seq<Seq<char>>,
)
    requires
        forall|r: Seq<char>| #[trigger] required.contains(r) ==> spec_lookup(ms, r) is Some,
        forall|i: int|
            0 <= i < ms.len() ==> match spec_lookup(props, (#[trigger] ms[i]).0) {
                Some(p) => conforms(ms[i].1, p),
                None => false,
            },
    ensures
        conforms(SpecJson::Object(ms), sj_object_schema(props, required)),
{
    lemma_object_schema(props, required);
}

proof fn lemma_leaf_types()
    ensures
        forall|ty: Seq<char>, d: Seq<char>| #[trigger]
            spec_str_field(sj_prop(ty, d), "type"@) == Some(ty),
        forall|ty: Seq<char>| #[trigger] spec_str_field(sj_typed(ty), "type"@) == Some(ty),
        forall|items: Seq<Seq<char>>, d: Seq<char>| #[trigger]
            conforms(js_strings(items), sj_string_array(d)),
{
    assert forall|ty: Seq<char>, d: Seq<char>| #[trigger]
        spec_str_field(sj_prop(ty, d), "type"@) == Some(ty) by {
        lemma_prop_type(ty, d);
    }
    assert forall|ty: Seq<char>| #[trigger] spec_str_field(sj_typed(ty), "type"@) == Some(ty) by {
        lemma_prop_type(ty, Seq::empty());
    }
    assert forall|items: Seq<Seq<char>>, d: Seq<char>| #[trigger]
        conforms(js_strings(items), sj_string_array(d)) by {
        lemma_strings_conform(items, d);
    }
}

proof fn lemma_reveal_keys()
    ensures
        "command"@.len() == 7,
        "is_read_only"@.len() == 12,
        "uses_pager"@.len() == 10,
        "files"@.len() == 5,
        "name"@.len() == 4,
        "summary"@.len() == 7,
        "diffs"@.len() == 5,
        "new_files"@.len() == 9,
        "file_path"@.len() == 9,
        "search"@.len() == 6,
        "replace"@.len() == 7,
        "content"@.len() == 7,
        "queries"@.len() == 7,
        "path"@.len() == 4,
        "patterns"@.len() == 8,
        "search_dir"@.len() == 10,
        "max_matches"@.len() == 11,
        "max_depth"@.len() == 9,
        "query"@.len() == 5,
        "path_filters"@.len() == 12,
        "type"@.len() == 4,
        "items"@.len() == 5,
        "description"@.len() == 11,
        "content"@ != "replace"@,
        "content"@ != "summary"@,
        "replace"@ != "summary"@,
        "command"@ != "queries"@,
{
    reveal_strlit("command");
    reveal_strlit("is_read_only");
    reveal_strlit("uses_pager");
    reveal_strlit("files");
    reveal_strlit("name");
    reveal_strlit("summary");
    reveal_strlit("diffs");
    reveal_strlit("new_files");
    reveal_strlit("file_path");
    reveal_strlit("search");
    reveal_strlit("replace");
    reveal_strlit("content");
    reveal_strlit("queries");
    reveal_strlit("path");
    reveal_strlit("patterns");
    reveal_strlit("search_dir");
    reveal_strlit("max_matches");
    reveal_strlit("max_depth");
    reveal_strlit("query");
    reveal_strlit("path_filters");
    reveal_strlit("type");
    reveal_strlit("items");
    reveal_strlit("description");
    assert("content"@[0] != "replace"@[0]);
    assert("content"@[0] != "summary"@[0]);
    assert("replace"@[0] != "summary"@[0]);
    assert("command"@[0] != "queries"@[0]);
}

proof fn lemma_grep_conforms(path: Seq<char>, queries: Seq<Seq<char>>)
    ensures
        conforms(
            SpecJson::Object(seq![("path"@, js(path)), ("queries"@, js_strings(queries))]),
            spec_grep_parameters(),
        ),
{
    lemma_reveal_keys();
    lemma_leaf_types();
    let ms = seq![("path"@, js(path)), ("queries"@, js_strings(queries))];
    let sch = spec_grep_parameters();
    let props = sch->Object_0[1].1->Object_0;
    let req = seq!["queries"@];
    assert(sch == sj_object_schema(props, req));
    lemma_lookup_first(ms, "queries"@, 1);
    lemma_lookup_first(props, "queries"@, 0);
    lemma_lookup_first(props, "path"@, 1);
    assert forall|r: Seq<char>| #[trigger] req.contains(r) implies spec_lookup(ms, r) is Some by {
        assert(r == req[0]);
    }
    lemma_object_conforms(ms, props, req);
}

proof fn lemma_run_shell_conforms(r: SpecRunShellCommand)
    ensures
        conforms(
            spec_tool_name_args(SpecTool::RunShellCommand(r))->Some_0.1,
            spec_run_shell_command_parameters(),
        ),
{
    lemma_reveal_keys();
    lemma_leaf_types();
    let ms = spec_tool_name_args(SpecTool::RunShellCommand(r))->Some_0.1->Object_0;
    let sch = spec_run_shell_command_parameters();
    let props = sch->Object_0[1].1->Object_0;
    let req = seq!["command"@];
    assert(sch == sj_object_schema(props, req));
    lemma_lookup_first(ms, "command"@, 0);
    lemma_lookup_first(props, "command"@, 0);
    lemma_lookup_first(props, "is_read_only"@, 1);
    lemma_lookup_first(props, "uses_pager"@, 2);
    assert forall|x: Seq<char>| #[trigger] req.contains(x) implies spec_lookup(ms, x) is Some by {
        assert(x == req[0]);
    }
    lemma_object_conforms(ms, props, req);
}

proof fn lemma_search_conforms(sc: SpecSearchCodebase)
    ensures
        conforms(
            spec_tool_name_args(SpecTool::SearchCodebase(sc))->Some_0.1,
            spec_search_codebase_parameters(),
        ),
{
    lemma_reveal_keys();
    lemma_leaf_types();
    let ms = spec_tool_name_args(SpecTool::SearchCodebase(sc))->Some_0.1->Object_0;
    let sch = spec_search_codebase_parameters();
    let props = sch->Object_0[1].1->Object_0;
    let req = seq!["query"@];
    assert(sch == sj_object_schema(props, req));
    lemma_lookup_first(ms, "query"@, 1);
    lemma_lookup_first(props, "query"@, 0);
    lemma_lookup_first(props, "path_filters"@, 1);
    assert forall|x: Seq<char>| #[trigger] req.contains(x) implies spec_lookup(ms, x) is Some by {
        assert(x == req[0]);
    }
    lemma_object_conforms(ms, props, req);
}

proof fn lemma_glob_conforms(fg: SpecFileGlobV2)
    ensures
        conforms(
            spec_tool_name_args(SpecTool::FileGlobV2(fg))->Some_0.1,
            spec_file_glob_v2_parameters(),
        ),
{
    lemma_reveal_keys();
    lemma_leaf_types();
    let ms = spec_tool_name_args(SpecTool::FileGlobV2(fg))->Some_0.1->Object_0;
    let sch = spec_file_glob_v2_parameters();
    let props = sch->Object_0[1].1->Object_0;
    let req = seq!["patterns"@];
    assert(sch == sj_object_schema(props, req));
    lemma_lookup_first(ms, "patterns"@, 2);
    lemma_lookup_first(props, "patterns"@, 0);
    lemma_lookup_first(props, "search_dir"@, 1);
    lemma_lookup_first(props, "max_matches"@, 2);
    lemma_lookup_first(props, "max_depth"@, 3);
    lemma_lookup_first(props[2].1->Object_0, "type"@, 0);
    assert forall|x: Seq<char>| #[trigger] req.contains(x) implies spec_lookup(ms, x) is Some by {
        assert(x == req[0]);
    }
    lemma_object_conforms(ms, props, req);
}

proof fn lemma_read_files_conforms(rf: SpecReadFiles)
    ensures
        conforms(
            spec_tool_name_args(SpecTool::ReadFiles(rf))->Some_0.1,
            spec_read_files_parameters(),
        ),
{
    lemma_reveal_keys();
    lemma_leaf_types();
    let ms = spec_tool_name_args(SpecTool::ReadFiles(rf))->Some_0.1->Object_0;
    let sch = spec_read_files_parameters();
    let props = sch->Object_0[1].1->Object_0;
    let req = seq!["files"@];
    assert(sch == sj_object_schema(props, req));
    let fs = props[0].1;
    let item_sch = fs->Object_0[1].1;
    let item_props = item_sch->Object_0[1].1->Object_0;
    let item_req = seq!["name"@];
    assert(item_sch == sj_object_schema(item_props, item_req));
    lemma_lookup_first(fs->Object_0, "type"@, 0);
    lemma_lookup_first(fs->Object_0, "items"@, 1);
    lemma_lookup_first(item_props, "name"@, 0);
    lemma_object_schema(item_props, item_req);
    let a = ms[0].1->Array_0;
    assert forall|i: int| 0 <= i < a.len() implies match spec_field(fs, "items"@) {
        Some(p) => conforms(#[trigger] a[i], p),
        None => false,
    } by {
        let im = a[i]->Object_0;
        lemma_lookup_first(im, "name"@, 0);
        assert forall|x: Seq<char>| #[trigger] item_req.contains(x) implies spec_lookup(im, x) is Some by {
            assert(x == item_req[0]);
        }
        lemma_object_conforms(im, item_props, item_req);
    }
    lemma_lookup_first(ms, "files"@, 0);
    lemma_lookup_first(props, "files"@, 0);
    assert forall|x: Seq<char>| #[trigger] req.contains(x) implies spec_lookup(ms, x) is Some by {
        assert(x == req[0]);
    }
    lemma_object_conforms(ms, props, req);
}

proof fn lemma_apply_diffs_conforms(ad: SpecApplyFileDiffs)
    ensures
        conforms(
            spec_tool_name_args(SpecTool::ApplyFileDiffs(ad))->Some_0.1,
            spec_apply_file_diffs_parameters(),
        ),
{
    lemma_reveal_keys();
    lemma_leaf_types();
    let ms = spec_tool_name_args(SpecTool::ApplyFileDiffs(ad))->Some_0.1->Object_0;
    let sch = spec_apply_file_diffs_parameters();
    let props = sch->Object_0[1].1->Object_0;
    let req = seq!["summary"@, "diffs"@];
    assert(sch == sj_object_schema(props, req));
    // diffs
    let ds = props[1].1;
    let d_sch = ds->Object_0[2].1;
    let d_props = d_sch->Object_0[1].1->Object_0;
    let d_req = seq!["file_path"@, "search"@, "replace"@];
    assert(d_sch == sj_object_schema(d_props, d_req));
    lemma_lookup_first(ds->Object_0, "type"@, 0);
    lemma_lookup_first(ds->Object_0, "items"@, 2);
    lemma_lookup_first(d_props, "file_path"@, 0);
    lemma_lookup_first(d_props, "search"@, 1);
    lemma_lookup_first(d_props, "replace"@, 2);
    let da = ms[0].1->Array_0;
    assert forall|i: int| 0 <= i < da.len() implies match spec_field(ds, "items"@) {
        Some(p) => conforms(#[trigger] da[i], p),
        None => false,
    } by {
        let im = da[i]->Object_0;
        lemma_lookup_first(im, "file_path"@, 0);
        lemma_lookup_first(im, "replace"@, 1);
        lemma_lookup_first(im, "search"@, 2);
        assert forall|x: Seq<char>| #[trigger] d_req.contains(x) implies spec_lookup(im, x) is Some by {
            let k = choose|k: int| 0 <= k < d_req.len() && d_req[k] == x;
        }
        lemma_object_conforms(im, d_props, d_req);
    }
    // new files
    let ns = props[2].1;
    let n_sch = ns->Object_0[2].1;
    let n_props = n_sch->Object_0[1].1->Object_0;
    let n_req = seq!["file_path"@, "content"@];
    assert(n_sch == sj_object_schema(n_props, n_req));
    lemma_lookup_first(ns->Object_0, "type"@, 0);
    lemma_lookup_first(ns->Object_0, "items"@, 2);
    lemma_lookup_first(n_props, "file_path"@, 0);
    lemma_lookup_first(n_props, "content"@, 1);
    let na = ms[1].1->Array_0;
    assert forall|i: int| 0 <= i < na.len() implies match spec_field(ns, "items"@) {
        Some(p) => conforms(#[trigger] na[i], p),
        None => false,
    } by {
        let im = na[i]->Object_0;
        lemma_lookup_first(im, "content"@, 0);
        lemma_lookup_first(im, "file_path"@, 1);
        assert forall|x: Seq<char>| #[trigger] n_req.contains(x) implies spec_lookup(im, x) is Some by {
            let k = choose|k: int| 0 <= k < n_req.len() && n_req[k] == x;
        }
        lemma_object_conforms(im, n_props, n_req);
    }
    // the object itself
    lemma_lookup_first(ms, "diffs"@, 0);
    lemma_lookup_first(ms, "new_files"@, 1);
    lemma_lookup_first(ms, "summary"@, 2);
    lemma_lookup_first(props, "summary"@, 0);
    lemma_lookup_first(props, "diffs"@, 1);
    lemma_lookup_first(props, "new_files"@, 2);
    assert forall|x: Seq<char>| #[trigger] req.contains(x) implies spec_lookup(ms, x) is Some by {
        let k = choose|k: int| 0 <= k < req.len() && req[k] == x;
    }
    lemma_object_conforms(ms, props, req);
}

/// Every tool call the library sends the model follows the argument schema
/// of the definition the model is offered for that tool: each argument is a
/// declared property of the right type (at every depth), and every required
/// property is present. So calls the model makes by those schemas use the
/// names the library reads back.
pub proof fn law_sent_arguments_follow_offered_schema(t: SpecTool)
    requires
        t !is Other,
    ensures
        spec_tool_name_args(t) matches Some((n, a)) && conforms(
            a,
            spec_tool_definition(tool_type_of(t)).parameters,
        ),
{
    match t {
        SpecTool::RunShellCommand(r) => lemma_run_shell_conforms(r),
        SpecTool::ReadFiles(rf) => lemma_read_files_conforms(rf),
        SpecTool::ApplyFileDiffs(ad) => lemma_apply_diffs_conforms(ad),
        SpecTool::Grep(g) => lemma_grep_conforms(g.path, g.queries),
        SpecTool::FileGlobV2(fg) => lemma_glob_conforms(fg),
        SpecTool::SearchCodebase(sc) => lemma_search_conforms(sc),
        SpecTool::Other => {},
    }
}

} // verus!
