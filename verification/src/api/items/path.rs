//! Item paths: the well-known folders, item IDs, and absolute or relative
//! paths, with the entity URI each resolves to.

use vstd::prelude::*;
use crate::error::{ApiResult, Error};
use crate::json::{
    empty_obj, get_string_field, json_rep, map_insert, map_new, obj_str_field, value_null,
    value_object, value_string, JsonRep,
};
use crate::odata::parameters::{options_pairs, utf8_pairs, Parameters};
use crate::urlenc::enc_pairs;

verus! {

/// Item path.
#[derive(Debug, Clone, PartialEq, Eq, PartialOrd, Ord)]
pub enum Path {
    /// The Home folder.
    Home,
    /// The Favorites folder.
    Favorites,
    /// The Shared Folders parent.
    AllShared,
    /// The Connectors parent.
    Connectors,
    /// The FileBox item.
    Box,
    /// The Top item.
    Top,
    /// The item identified by ID.
    Id(String),
    /// An absolute path.
    Absolute(String),
    /// A path relative to the item with the given ID.
    Relative(String, String),
    /// The parent of the item with the given ID.
    Parent(String),
}

/// The entity URI a path renders to, given the already-rendered segment and
/// parameter strings.
pub open spec fn entity_uri_of(p: Path, segment: Seq<char>, params: Seq<char>) -> Seq<char> {
    match p {
        Path::Home => "Items(home)"@ + segment + "?"@ + params,
        Path::Favorites => "Items(favorites)"@ + segment + "?"@ + params,
        Path::AllShared => "Items(allshared)"@ + segment + "?"@ + params,
        Path::Connectors => "Items(connectors)"@ + segment + "?"@ + params,
        Path::Box => "Items(box)"@ + segment + "?"@ + params,
        Path::Top => "Items(top)"@ + segment + "?"@ + params,
        Path::Id(id) => "Items("@ + id@ + ")"@ + segment + "?"@ + params,
        Path::Absolute(path) => "Items/ByPath?path="@ + path@ + "&"@ + params,
        Path::Relative(id, path) => "Items("@ + id@ + ")/ByPath?path="@ + path@ + "&"@ + params,
        Path::Parent(id) => "Items("@ + id@ + ")/Parent&"@ + params,
    }
}

/// The JSON a path renders to: an object holding the item ID for an `Id`
/// path, and `null` for every other path.
pub open spec fn path_json_of(p: Path) -> JsonRep {
    match p {
        Path::Id(id) => JsonRep::Obj(empty_obj().insert("Id"@, JsonRep::Str(id@))),
        _ => JsonRep::Null,
    }
}

impl Path {
    /// The item ID when the path is an `Id`, and the empty string otherwise.
    pub fn id(&self) -> (r: String)
        ensures
            self matches Path::Id(id) ==> r@ == id@,
            !(self matches Path::Id(_)) ==> r@ == Seq::<char>::empty(),
    {
        match self {
            Path::Id(id) => id.clone(),
            _ => String::new(),
        }
    }

    /// Whether the path is the Home folder.
    pub fn is_home(&self) -> (r: bool)
        ensures
            r == (self matches Path::Home),
    {
        match self {
            Path::Home => true,
            _ => false,
        }
    }

    /// Whether the path is the Favorites folder.
    pub fn is_favorites(&self) -> (r: bool)
        ensures
            r == (self matches Path::Favorites),
    {
        match self {
            Path::Favorites => true,
            _ => false,
        }
    }

    /// Whether the path is the Shared Folders parent.
    pub fn is_allshared(&self) -> (r: bool)
        ensures
            r == (self matches Path::AllShared),
    {
        match self {
            Path::AllShared => true,
            _ => false,
        }
    }

    /// Whether the path is the Connectors parent.
    pub fn is_connectors(&self) -> (r: bool)
        ensures
            r == (self matches Path::Connectors),
    {
        match self {
            Path::Connectors => true,
            _ => false,
        }
    }

    /// Whether the path is the FileBox item.
    pub fn is_box(&self) -> (r: bool)
        ensures
            r == (self matches Path::Box),
    {
        match self {
            Path::Box => true,
            _ => false,
        }
    }

    /// Whether the path is the Top item.
    pub fn is_top(&self) -> (r: bool)
        ensures
            r == (self matches Path::Top),
    {
        match self {
            Path::Top => true,
            _ => false,
        }
    }

    /// Whether the path holds an item ID.
    pub fn is_id(&self) -> (r: bool)
        ensures
            r == (self matches Path::Id(_)),
    {
        match self {
            Path::Id(_) => true,
            _ => false,
        }
    }

    /// Whether the path is absolute.
    pub fn is_absolute(&self) -> (r: bool)
        ensures
            r == (self matches Path::Absolute(_)),
    {
        match self {
            Path::Absolute(_) => true,
            _ => false,
        }
    }

    /// Whether the path is relative.
    pub fn is_relative(&self) -> (r: bool)
        ensures
            r == (self matches Path::Relative(_, _)),
    {
        match self {
            Path::Relative(_, _) => true,
            _ => false,
        }
    }

    /// Whether the path points to a parent item.
    pub fn is_parent(&self) -> (r: bool)
        ensures
            r == (self matches Path::Parent(_)),
    {
        match self {
            Path::Parent(_) => true,
            _ => false,
        }
    }

    /// Render the entity URI for this path, with an optional extra segment
    /// and optional query parameters.
    pub fn entity_and_parameters(&self, segment: Option<&str>, parameters: Option<Parameters>) -> (
        r: String)
        ensures
            r@ == entity_uri_of(
                *self,
                match segment {
                    Some(s) => s@,
                    None => Seq::<char>::empty(),
                },
                match parameters {
                    Some(p) => enc_pairs(utf8_pairs(options_pairs(p))),
                    None => Seq::<char>::empty(),
                },
            ),
    {
        let seg: &str = match segment {
            Some(s) => s,
            None => "",
        };
        let params: String = match &parameters {
            Some(p) => p.to_string(),
            None => String::new(),
        };
        proof {
            reveal_strlit("");
        }
        let mut out = String::new();
        match self {
            Path::Home => {
                out.append("Items(home)");
                out.append(seg);
                out.append("?");
                out.append(params.as_str());
            },
            Path::Favorites => {
                out.append("Items(favorites)");
                out.append(seg);
                out.append("?");
                out.append(params.as_str());
            },
            Path::AllShared => {
                out.append("Items(allshared)");
                out.append(seg);
                out.append("?");
                out.append(params.as_str());
            },
            Path::Connectors => {
                out.append("Items(connectors)");
                out.append(seg);
                out.append("?");
                out.append(params.as_str());
            },
            Path::Box => {
                out.append("Items(box)");
                out.append(seg);
                out.append("?");
                out.append(params.as_str());
            },
            Path::Top => {
                out.append("Items(top)");
                out.append(seg);
                out.append("?");
                out.append(params.as_str());
            },
            Path::Id(id) => {
                out.append("Items(");
                out.append(id.as_str());
                out.append(")");
                out.append(seg);
                out.append("?");
                out.append(params.as_str());
            },
            Path::Absolute(path) => {
                out.append("Items/ByPath?path=");
                out.append(path.as_str());
                out.append("&");
                out.append(params.as_str());
            },
            Path::Relative(id, path) => {
                out.append("Items(");
                out.append(id.as_str());
                out.append(")/ByPath?path=");
                out.append(path.as_str());
                out.append("&");
                out.append(params.as_str());
            },
            Path::Parent(id) => {
                out.append("Items(");
                out.append(id.as_str());
                out.append(")/Parent&");
                out.append(params.as_str());
            },
        }
        assert(out@ =~= entity_uri_of(
            *self,
            match segment {
                Some(s) => s@,
                None => Seq::<char>::empty(),
            },
            match parameters {
                Some(p) => enc_pairs(utf8_pairs(options_pairs(p))),
                None => Seq::<char>::empty(),
            },
        ));
        out
    }

    /// Read a path from a result JSON object: its string field `Id`, as an
    /// ID path; a value without one is malformed.
    pub fn from_json(value: serde_json::Value) -> (r: ApiResult<Path>)
        ensures
            match obj_str_field(json_rep(value), "Id"@) {
                Some(id) => r matches Ok(p) && p matches Path::Id(s) && s@ == id,
                None => r matches Err(e) && e matches Error::Other(m) && m@
                    == "Cannot find Item ID"@,
            },
    {
        match get_string_field(&value, "Id") {
            Some(id) => Ok(Path::Id(id)),
            None => Err(Error::Other(String::from_str("Cannot find Item ID"))),
        }
    }

    /// Render the path as JSON: an object holding the item ID for an `Id`
    /// path, and `null` for every other path, which the remote API cannot
    /// address directly.
    pub fn to_json(&self) -> (r: serde_json::Value)
        ensures
            json_rep(r) == path_json_of(*self),
    {
        match self {
            Path::Id(id) => {
                let mut object = map_new();
                map_insert(&mut object, String::from_str("Id"), value_string(id.clone()));
                value_object(object)
            },
            _ => value_null(),
        }
    }
}

} // verus!
