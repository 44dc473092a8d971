//! The request URIs and JSON bodies of the Items entity's operations. The
//! network calls themselves live with the caller; everything here is a pure
//! function from inputs to the exact URI or body sent.

use vstd::prelude::*;
use crate::api::items::path::{entity_uri_of, Path};
use crate::json::{
    empty_obj, json_rep, map_insert, map_new, value_array, value_object, value_string, JsonRep,
};
use crate::odata::parameters::{options_pairs, utf8_pairs, Parameters};
use crate::urlenc::enc_pairs;

verus! {

/// The body of a folder-creation request: the folder's name, and its
/// description when one is given.
pub open spec fn mkdir_body_rep(name: Seq<char>, description: Option<Seq<char>>) -> JsonRep {
    match description {
        Some(desc) => JsonRep::Obj(
            empty_obj().insert("Name"@, JsonRep::Str(name)).insert(
                "Description"@,
                JsonRep::Str(desc),
            ),
        ),
        None => JsonRep::Obj(empty_obj().insert("Name"@, JsonRep::Str(name))),
    }
}

/// Build the JSON body of a folder-creation request.
pub fn mkdir_body(name: String, description: Option<String>) -> (r: serde_json::Value)
    ensures
        json_rep(r) == mkdir_body_rep(
            name@,
            match description {
                Some(d) => Some(d@),
                None => None,
            },
        ),
{
    let mut data = map_new();
    map_insert(&mut data, String::from_str("Name"), value_string(name));
    match description {
        Some(desc) => {
            map_insert(&mut data, String::from_str("Description"), value_string(desc));
        },
        None => {},
    }
    value_object(data)
}

/// The URI of a folder-creation request: the resolved parent's `/Folder`
/// segment, with the overwrite flag and passthrough disabled.
pub fn mkdir_uri(parent: &Path, overwrite: bool) -> (r: String)
    ensures
        r@ == entity_uri_of(
            *parent,
            "/Folder"@,
            enc_pairs(
                utf8_pairs(
                    seq![
                        ("overwrite"@, if overwrite { "true"@ } else { "false"@ }),
                        ("passthrough"@, "false"@),
                    ],
                ),
            ),
        ),
{
    let mut custom: Vec<(String, String)> = Vec::new();
    custom.push((String::from_str("overwrite"), crate::api::bool_to_string(overwrite)));
    custom.push((String::from_str("passthrough"), String::from_str("false")));
    let params = Parameters::new().custom(custom);
    proof {
        assert(options_pairs(params) =~= seq![
            ("overwrite"@, if overwrite { "true"@ } else { "false"@ }),
            ("passthrough"@, "false"@),
        ]);
    }
    parent.entity_and_parameters(Some("/Folder"), Some(params))
}

/// The URI of a removal request: the resolved item itself, with the
/// single-version and force-sync flags.
pub fn remove_uri(path: &Path, single_version: bool, force_sync: bool) -> (r: String)
    ensures
        r@ == entity_uri_of(
            *path,
            Seq::<char>::empty(),
            enc_pairs(
                utf8_pairs(
                    seq![
                        ("singleversion"@, if single_version { "true"@ } else { "false"@ }),
                        ("forceSync"@, if force_sync { "true"@ } else { "false"@ }),
                    ],
                ),
            ),
        ),
{
    let mut custom: Vec<(String, String)> = Vec::new();
    custom.push((String::from_str("singleversion"), crate::api::bool_to_string(single_version)));
    custom.push((String::from_str("forceSync"), crate::api::bool_to_string(force_sync)));
    let params = Parameters::new().custom(custom);
    proof {
        assert(options_pairs(params) =~= seq![
            ("singleversion"@, if single_version { "true"@ } else { "false"@ }),
            ("forceSync"@, if force_sync { "true"@ } else { "false"@ }),
        ]);
    }
    path.entity_and_parameters(None, Some(params))
}

/// The URI of a bulk-removal request: the resolved parent's `/BulkDelete`
/// segment, with the delete-permanently and force-sync flags.
pub fn remove_bulk_uri(parent: &Path, delete_permanently: bool, force_sync: bool) -> (r: String)
    ensures
        r@ == entity_uri_of(
            *parent,
            "/BulkDelete"@,
            enc_pairs(
                utf8_pairs(
                    seq![
                        ("deletePermanently"@, if delete_permanently { "true"@ } else { "false"@ }),
                        ("forceSync"@, if force_sync { "true"@ } else { "false"@ }),
                    ],
                ),
            ),
        ),
{
    let mut custom: Vec<(String, String)> = Vec::new();
    custom.push(
        (String::from_str("deletePermanently"), crate::api::bool_to_string(delete_permanently)),
    );
    custom.push((String::from_str("forceSync"), crate::api::bool_to_string(force_sync)));
    let params = Parameters::new().custom(custom);
    proof {
        assert(options_pairs(params) =~= seq![
            ("deletePermanently"@, if delete_permanently { "true"@ } else { "false"@ }),
            ("forceSync"@, if force_sync { "true"@ } else { "false"@ }),
        ]);
    }
    parent.entity_and_parameters(Some("/BulkDelete"), Some(params))
}

/// The item IDs a bulk removal sends: of the already-resolved paths, those
/// that hold an ID, each as a JSON string, in order.
pub open spec fn bulk_ids(items: Seq<Path>) -> Seq<JsonRep>
    decreases items.len(),
{
    if items.len() == 0 {
        Seq::<JsonRep>::empty()
    } else {
        bulk_ids(items.drop_last()) + (match items.last() {
            Path::Id(id) => seq![JsonRep::Str(id@)],
            _ => Seq::<JsonRep>::empty(),
        })
    }
}

/// Build the JSON body of a bulk-removal request: the array of the
/// resolved item IDs, paths that did not resolve to an ID left out.
pub fn remove_bulk_body(items: &Vec<Path>) -> (r: serde_json::Value)
    ensures
        json_rep(r) == JsonRep::Arr(bulk_ids(items@)),
{
    let mut ids: Vec<serde_json::Value> = Vec::new();
    let mut i: usize = 0;
    while i < items.len()
        invariant
            i <= items@.len(),
            ids@.map_values(|x: serde_json::Value| json_rep(x)) =~= bulk_ids(
                items@.take(i as int),
            ),
        decreases items@.len() - i,
    {
        match &items[i] {
            Path::Id(id) => {
                ids.push(value_string(id.clone()));
            },
            _ => {},
        }
        proof {
            assert(items@.take(i as int + 1).drop_last() =~= items@.take(i as int));
            assert(ids@.map_values(|x: serde_json::Value| json_rep(x)) =~= bulk_ids(
                items@.take(i as int + 1),
            ));
        }
        i = i + 1;
    }
    proof {
        assert(items@.take(items@.len() as int) =~= items@);
    }
    value_array(ids)
}

/// The URI of a share-creation request, with the notify flag.
pub fn share_create_uri(notify: bool) -> (r: String)
    ensures
        r@ == "Shares?"@ + enc_pairs(
            utf8_pairs(seq![("notify"@, if notify { "true"@ } else { "false"@ })]),
        ),
{
    let mut custom: Vec<(String, String)> = Vec::new();
    custom.push((String::from_str("notify"), crate::api::bool_to_string(notify)));
    let params = Parameters::new().custom(custom);
    proof {
        assert(options_pairs(params) =~= seq![
            ("notify"@, if notify { "true"@ } else { "false"@ }),
        ]);
    }
    let mut out = String::from_str("Shares?");
    out.append(params.to_string().as_str());
    assert(out@ =~= "Shares?"@ + enc_pairs(
        utf8_pairs(seq![("notify"@, if notify { "true"@ } else { "false"@ })]),
    ));
    out
}

} // verus!
