//! Item details, read from the JSON the Items entity returns.

use vstd::prelude::*;
use crate::api::items::kind::Kind;
use crate::api::items::path::Path;
use crate::api::multi_option::MultiOption;
use crate::dates::{parse_utc_instant, utc_instant_of};
use crate::error::{ApiResult, Error};
use crate::json::{
    get_string_field, get_u64_field, has_field, json_rep, obj_field, obj_has_field, obj_str_field,
    obj_u64_field, value_as_array, value_clone, value_get, JsonRep,
};

verus! {

/// Item details.
#[derive(Debug)]
pub struct Item {
    /// Kind of the item.
    pub kind: Kind,
    /// ID of the item.
    pub id: String,
    /// URL of the item.
    pub url: String,
    /// Item name.
    pub name: String,
    /// Item file name.
    pub filename: String,
    /// Item description.
    pub description: String,
    /// Item size in bytes.
    pub size: u64,
    /// Item creation instant, as a Unix timestamp.
    pub creation_date: i64,
    /// Raw item JSON, kept when meta information was requested.
    pub meta: Option<serde_json::Value>,
}

/// The plain content of an item, as read from its JSON.
pub struct ItemModel {
    /// Kind of the item.
    pub kind: Kind,
    /// ID of the item.
    pub id: Seq<char>,
    /// URL of the item.
    pub url: Seq<char>,
    /// Item name.
    pub name: Seq<char>,
    /// Item file name.
    pub filename: Seq<char>,
    /// Item description.
    pub description: Seq<char>,
    /// Item size in bytes.
    pub size: int,
    /// Item creation instant.
    pub creation_date: int,
}

/// The kind named by an item's `odata.type` field, when it names one.
pub open spec fn item_kind_of(rep: JsonRep) -> Option<Kind> {
    match obj_str_field(rep, "odata.type"@) {
        Some(t) => if t == "ShareFile.Api.Models.Folder"@ {
            Some(Kind::Folder)
        } else if t == "ShareFile.Api.Models.File"@ {
            Some(Kind::File)
        } else {
            None
        },
        None => None,
    }
}

/// The item a JSON object describes: every required field present and
/// well-formed, or nothing when any is missing or malformed.
pub open spec fn item_of(rep: JsonRep) -> Option<ItemModel> {
    match item_kind_of(rep) {
        Some(kind) => match obj_str_field(rep, "Id"@) {
            Some(id) => match obj_str_field(rep, "url"@) {
                Some(url) => match obj_str_field(rep, "Name"@) {
                    Some(name) => match obj_str_field(rep, "FileName"@) {
                        Some(filename) => match obj_str_field(rep, "Description"@) {
                            Some(description) => match obj_u64_field(rep, "FileSizeBytes"@) {
                                Some(size) => match obj_str_field(rep, "CreationDate"@) {
                                    Some(cd) => match utc_instant_of(cd) {
                                        Some(creation_date) => Some(
                                            ItemModel {
                                                kind,
                                                id,
                                                url,
                                                name,
                                                filename,
                                                description,
                                                size,
                                                creation_date: creation_date as int,
                                            },
                                        ),
                                        None => None,
                                    },
                                    None => None,
                                },
                                None => None,
                            },
                            None => None,
                        },
                        None => None,
                    },
                    None => None,
                },
                None => None,
            },
            None => None,
        },
        None => None,
    }
}

impl Item {
    /// The plain content of this item.
    pub open spec fn model(&self) -> ItemModel {
        ItemModel {
            kind: self.kind,
            id: self.id@,
            url: self.url@,
            name: self.name@,
            filename: self.filename@,
            description: self.description@,
            size: self.size as int,
            creation_date: self.creation_date as int,
        }
    }

    /// The path pointing to this item.
    pub fn path(&self) -> (r: Path)
        ensures
            r matches Path::Id(id) && id@ == self.id@,
    {
        Path::Id(self.id.clone())
    }

    /// Read one item from its JSON object. When `with_meta` is set, the
    /// raw JSON is kept in the item's `meta` field.
    pub fn item_from_value(value: &serde_json::Value, with_meta: bool) -> (r: ApiResult<Item>)
        ensures
            match item_of(json_rep(*value)) {
                Some(m) => {
                    &&& r matches Ok(item)
                    &&& item.model() == m
                    &&& (with_meta ==> (item.meta matches Some(v) && json_rep(v) == json_rep(
                        *value,
                    )))
                    &&& (!with_meta ==> item.meta is None)
                },
                None => r matches Err(e) && e is Json,
            },
    {
        proof {
            reveal_strlit("ShareFile.Api.Models.Folder");
            reveal_strlit("ShareFile.Api.Models.File");
        }
        let kind = match get_string_field(value, "odata.type") {
            Some(t) => {
                if t == String::from_str("ShareFile.Api.Models.Folder") {
                    Kind::Folder
                } else if t == String::from_str("ShareFile.Api.Models.File") {
                    Kind::File
                } else {
                    return Err(Error::Json(String::from_str("unknown item kind")));
                }
            },
            None => {
                return Err(Error::Json(String::from_str("item kind is missing")));
            },
        };
        let id = match get_string_field(value, "Id") {
            Some(v) => v,
            None => {
                return Err(Error::Json(String::from_str("item ID is missing")));
            },
        };
        let url = match get_string_field(value, "url") {
            Some(v) => v,
            None => {
                return Err(Error::Json(String::from_str("item URL is missing")));
            },
        };
        let name = match get_string_field(value, "Name") {
            Some(v) => v,
            None => {
                return Err(Error::Json(String::from_str("item name is missing")));
            },
        };
        let filename = match get_string_field(value, "FileName") {
            Some(v) => v,
            None => {
                return Err(Error::Json(String::from_str("item file name is missing")));
            },
        };
        let description = match get_string_field(value, "Description") {
            Some(v) => v,
            None => {
                return Err(Error::Json(String::from_str("item description is missing")));
            },
        };
        let size = match get_u64_field(value, "FileSizeBytes") {
            Some(v) => v,
            None => {
                return Err(Error::Json(String::from_str("item size is missing")));
            },
        };
        let creation_date = match get_string_field(value, "CreationDate") {
            Some(cd) => match parse_utc_instant(cd.as_str()) {
                Some(ts) => ts,
                None => {
                    return Err(Error::Json(String::from_str("item creation date is invalid")));
                },
            },
            None => {
                return Err(Error::Json(String::from_str("item creation date is missing")));
            },
        };
        let meta = if with_meta {
            Some(value_clone(value))
        } else {
            None
        };
        Ok(Item { kind, id, url, name, filename, description, size, creation_date, meta })
    }

    /// Read one item or many from a result JSON value: a value carrying an
    /// `odata.count` field holds its items in a `value` array; any other
    /// value describes a single item.
    pub fn from_value(value: serde_json::Value, with_meta: bool) -> (r: ApiResult<
        MultiOption<Item>,
    >)
        ensures
            !obj_has_field(json_rep(value), "odata.count"@) ==> (match item_of(json_rep(value)) {
                Some(m) => r matches Ok(mo) && mo matches MultiOption::One(item) && item.model()
                    == m && (with_meta ==> (item.meta matches Some(v) && json_rep(v) == json_rep(
                    value,
                ))) && (!with_meta ==> item.meta is None),
                None => r is Err,
            }),
            obj_has_field(json_rep(value), "odata.count"@) ==> (match obj_field(
                json_rep(value),
                "value"@,
            ) {
                Some(JsonRep::Arr(elems)) => {
                    if forall|k: int| 0 <= k < elems.len() ==> (#[trigger] item_of(elems[k])) is Some {
                        r matches Ok(mo) && mo matches MultiOption::Many(items) && items@.len()
                            == elems.len() && (forall|k: int|
                            0 <= k < elems.len() ==> (#[trigger] items@[k]).model() == item_of(
                                elems[k],
                            )->Some_0) && (with_meta ==> forall|k: int|
                            0 <= k < elems.len() ==> ((#[trigger] items@[k]).meta matches Some(v)
                                && json_rep(v) == elems[k]))
                    } else {
                        r is Err
                    }
                },
                _ => r is Err,
            }),
    {
        if has_field(&value, "odata.count") {
            let list = match value_get(&value, "value") {
                Some(list) => list,
                None => {
                    return Err(Error::Json(String::from_str("item list is missing")));
                },
            };
            let elems = match value_as_array(list) {
                Some(elems) => elems,
                None => {
                    return Err(Error::Json(String::from_str("item list is not an array")));
                },
            };
            let ghost reps = elems@.map_values(|x: serde_json::Value| json_rep(x));
            let mut items: Vec<Item> = Vec::new();
            let mut i: usize = 0;
            while i < elems.len()
                invariant
                    i <= elems@.len(),
                    obj_has_field(json_rep(value), "odata.count"@),
                    obj_field(json_rep(value), "value"@) == Some(JsonRep::Arr(reps)),
                    reps == elems@.map_values(|x: serde_json::Value| json_rep(x)),
                    items@.len() == i,
                    forall|k: int| 0 <= k < i ==> (#[trigger] item_of(reps[k])) is Some,
                    forall|k: int|
                        0 <= k < i ==> (#[trigger] items@[k]).model() == item_of(reps[k])->Some_0,
                    with_meta ==> forall|k: int|
                        0 <= k < i ==> ((#[trigger] items@[k]).meta matches Some(v) && json_rep(v)
                            == reps[k]),
                decreases elems@.len() - i,
            {
                match Item::item_from_value(&elems[i], with_meta) {
                    Ok(item) => {
                        items.push(item);
                    },
                    Err(e) => {
                        proof {
                            assert(reps[i as int] == json_rep(elems@[i as int]));
                            assert(!(item_of(reps[i as int]) is Some));
                        }
                        return Err(e);
                    },
                }
                i = i + 1;
            }
            Ok(MultiOption::Many(items))
        } else {
            match Item::item_from_value(&value, with_meta) {
                Ok(item) => Ok(MultiOption::One(item)),
                Err(e) => Err(e),
            }
        }
    }
}

} // verus!
