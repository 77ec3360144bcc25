//! Items: one content unit per source file. A source text is split into a
//! front-matter block and a markdown body; the block is decoded into raw
//! fields by the external structured-text decoder, and the defaults and
//! the validation of those fields are this module's own, fully specified
//! logic.

use vstd::prelude::*;
use vstd::string::StringExecFns;

use crate::text::{html_of, markdown_to_html};
use crate::{Error, ErrorV};

verus! {

/// The kind of an item; it decides the node shape in the diagram.
#[derive(Clone, Copy, PartialEq, Eq, Structural, Debug)]
pub enum ItemType {
    Theorem,
    Definition,
}

/// The lifecycle state of an item, ordered from first to last stage; it
/// decides the node colors in the diagram.
#[derive(Clone, Copy, PartialEq, Eq, Structural, Debug)]
pub enum ItemState {
    Draft,
    ReadyForStmt,
    StmtFormalized,
    ReadyForProof,
    Formalized,
}

/// The decoded front matter of an item, with every unset field at its
/// default.
pub struct ItemInfo {
    pub kind: ItemType,
    pub state: ItemState,
    pub statement: Option<String>,
    pub dependencies: Vec<String>,
    pub hide: bool,
    pub reference: Option<String>,
    pub wikipedia: Option<String>,
}

/// The abstract value of an `ItemInfo`.
#[verifier::ext_equal]
pub ghost struct ItemInfoV {
    pub kind: ItemType,
    pub state: ItemState,
    pub statement: Option<Seq<char>>,
    pub dependencies: Seq<Seq<char>>,
    pub hide: bool,
    pub reference: Option<Seq<char>>,
    pub wikipedia: Option<Seq<char>>,
}

impl View for ItemInfo {
    type V = ItemInfoV;

    open spec fn view(&self) -> ItemInfoV {
        ItemInfoV {
            kind: self.kind,
            state: self.state,
            statement: match self.statement {
                Some(s) => Some(s@),
                None => None,
            },
            dependencies: self.dependencies.deep_view(),
            hide: self.hide,
            reference: match self.reference {
                Some(s) => Some(s@),
                None => None,
            },
            wikipedia: match self.wikipedia {
                Some(s) => Some(s@),
                None => None,
            },
        }
    }
}

impl Default for ItemInfo {
    /// The defaults of the front-matter fields: a theorem in draft state
    /// with no statement, no dependencies, not hidden, no references.
    fn default() -> (r: ItemInfo)
        ensures
            r.kind == ItemType::Theorem,
            r.state == ItemState::Draft,
            r.statement is None,
            r.dependencies@ =~= Seq::<String>::empty(),
            !r.hide,
            r.reference is None,
            r.wikipedia is None,
    {
        ItemInfo {
            kind: ItemType::Theorem,
            state: ItemState::Draft,
            statement: None,
            dependencies: Vec::new(),
            hide: false,
            reference: None,
            wikipedia: None,
        }
    }
}

/// One item: a graph node with rendered content.
pub struct Item {
    pub name: String,
    pub info: ItemInfo,
    pub body: String,
}

/// The abstract value of an `Item`.
pub ghost struct ItemV {
    pub name: Seq<char>,
    pub info: ItemInfoV,
    pub body: Seq<char>,
}

impl View for Item {
    type V = ItemV;

    open spec fn view(&self) -> ItemV {
        ItemV { name: self.name@, info: self.info@, body: self.body@ }
    }
}

/// The abstract values of a sequence of items.
pub open spec fn views_of_items(items: Seq<Item>) -> Seq<ItemV> {
    items.map(|i: int, it: Item| it@)
}

/// The data of an item page: the item, its project, and the navigation
/// index.
pub struct ItemPage<'a> {
    pub project: &'a crate::project::Project,
    pub item: &'a Item,
    pub nav: &'a crate::nav::Nav<'a>,
}

/// A recognized front-matter field as the decoder hands it over: absent,
/// present but not of the recognized type, or present with its value.
pub struct RawInfo {
    pub kind: Option<Option<String>>,
    pub state: Option<Option<String>>,
    pub statement: Option<Option<String>>,
    pub dependencies: Option<Option<Vec<String>>>,
    pub hide: Option<Option<bool>>,
    pub reference: Option<Option<String>>,
    pub wikipedia: Option<Option<String>>,
}

/// The abstract value of a `RawInfo`.
pub ghost struct RawInfoV {
    pub kind: Option<Option<Seq<char>>>,
    pub state: Option<Option<Seq<char>>>,
    pub statement: Option<Option<Seq<char>>>,
    pub dependencies: Option<Option<Seq<Seq<char>>>>,
    pub hide: Option<Option<bool>>,
    pub reference: Option<Option<Seq<char>>>,
    pub wikipedia: Option<Option<Seq<char>>>,
}

pub open spec fn spec_view_opt_text(f: Option<Option<String>>) -> Option<Option<Seq<char>>> {
    match f {
        None => None,
        Some(None) => Some(None),
        Some(Some(s)) => Some(Some(s@)),
    }
}

impl View for RawInfo {
    type V = RawInfoV;

    open spec fn view(&self) -> RawInfoV {
        RawInfoV {
            kind: spec_view_opt_text(self.kind),
            state: spec_view_opt_text(self.state),
            statement: spec_view_opt_text(self.statement),
            dependencies: match self.dependencies {
                None => None,
                Some(None) => Some(None),
                Some(Some(v)) => Some(Some(v.deep_view())),
            },
            hide: self.hide,
            reference: spec_view_opt_text(self.reference),
            wikipedia: spec_view_opt_text(self.wikipedia),
        }
    }
}

/// What the front matter of a text decodes to: the raw recognized fields,
/// or the decoder's message on malformed input.
pub uninterp spec fn raw_info_of(text: Seq<char>) -> Result<RawInfoV, Seq<char>>;

/// Where a text splits into a front-matter block and the content after it,
/// both trimmed; nothing when the text holds no front-matter block.
pub uninterp spec fn matter_split_of(text: Seq<char>) -> Option<(Seq<char>, Seq<char>)>;

/// Relies on matter::matter: splits a front-matter block from the content
/// that follows it, trimming both, or yields nothing when no block is
/// found; the result depends on the text alone.
#[verifier::external_body]
pub fn split_matter(text: &String) -> (r: Option<(String, String)>)
    ensures
        match r {
            Some(p) => matter_split_of(text@) == Some((p.0@, p.1@)),
            None => matter_split_of(text@) is None,
        },
{
    matter::matter(text)
}

/// Relies on toml::from_str to a table of values and on the accessors of
/// the table and its values (get, as_str, as_bool, as_array): each
/// recognized field is handed over as absent, present-but-ill-typed, or
/// present with its value, and nothing is tested or defaulted here; the
/// result depends on the text alone.
#[verifier::external_body]
pub fn decode_raw_info(text: &String) -> (r: Result<RawInfo, String>)
    ensures
        match r {
            Ok(raw) => raw_info_of(text@) == Ok::<RawInfoV, Seq<char>>(raw@),
            Err(m) => raw_info_of(text@) == Err::<RawInfoV, Seq<char>>(m@),
        },
{
    let t: toml::Table = match toml::from_str(text) {
        Ok(t) => t,
        Err(e) => return Err(e.to_string()),
    };
    let s = |v: &toml::Value| v.as_str().map(str::to_string);
    Ok(RawInfo {
        kind: t.get("type").map(s),
        state: t.get("state").map(s),
        statement: t.get("statement").map(s),
        dependencies: t.get("dependencies").map(|v| v.as_array().and_then(|a| a.iter().map(s).collect())),
        hide: t.get("hide").map(|v| v.as_bool()),
        reference: t.get("reference").map(s),
        wikipedia: t.get("wikipedia").map(s),
    })
}

/// The item kind a raw field stands for: the default when absent, nothing
/// when ill-typed or not a known kind name.
pub open spec fn spec_kind_field(f: Option<Option<Seq<char>>>) -> Option<ItemType> {
    match f {
        None => Some(ItemType::Theorem),
        Some(None) => None,
        Some(Some(s)) => if s == "Theorem"@ {
            Some(ItemType::Theorem)
        } else if s == "Definition"@ {
            Some(ItemType::Definition)
        } else {
            None
        },
    }
}

/// The lifecycle state a raw field stands for: the default when absent,
/// nothing when ill-typed or not a known state name.
pub open spec fn spec_state_field(f: Option<Option<Seq<char>>>) -> Option<ItemState> {
    match f {
        None => Some(ItemState::Draft),
        Some(None) => None,
        Some(Some(s)) => if s == "Draft"@ {
            Some(ItemState::Draft)
        } else if s == "ReadyForStmt"@ {
            Some(ItemState::ReadyForStmt)
        } else if s == "StmtFormalized"@ {
            Some(ItemState::StmtFormalized)
        } else if s == "ReadyForProof"@ {
            Some(ItemState::ReadyForProof)
        } else if s == "Formalized"@ {
            Some(ItemState::Formalized)
        } else {
            None
        },
    }
}

/// Validation and defaulting of the raw fields, checked in a fixed field
/// order; the first invalid field decides the message.
pub open spec fn spec_info_from_raw(raw: RawInfoV) -> Result<ItemInfoV, Seq<char>> {
    if spec_kind_field(raw.kind) is None {
        Err("invalid front matter field: type"@)
    } else if spec_state_field(raw.state) is None {
        Err("invalid front matter field: state"@)
    } else if raw.statement matches Some(None) {
        Err("invalid front matter field: statement"@)
    } else if raw.dependencies matches Some(None) {
        Err("invalid front matter field: dependencies"@)
    } else if raw.hide matches Some(None) {
        Err("invalid front matter field: hide"@)
    } else if raw.reference matches Some(None) {
        Err("invalid front matter field: reference"@)
    } else if raw.wikipedia matches Some(None) {
        Err("invalid front matter field: wikipedia"@)
    } else {
        Ok(
            ItemInfoV {
                kind: match spec_kind_field(raw.kind) {
                    Some(k) => k,
                    None => ItemType::Theorem,
                },
                state: match spec_state_field(raw.state) {
                    Some(s) => s,
                    None => ItemState::Draft,
                },
                statement: match raw.statement {
                    Some(Some(s)) => Some(s),
                    _ => None,
                },
                dependencies: match raw.dependencies {
                    Some(Some(v)) => v,
                    _ => Seq::empty(),
                },
                hide: match raw.hide {
                    Some(Some(b)) => b,
                    _ => false,
                },
                reference: match raw.reference {
                    Some(Some(s)) => Some(s),
                    _ => None,
                },
                wikipedia: match raw.wikipedia {
                    Some(Some(s)) => Some(s),
                    _ => None,
                },
            },
        )
    }
}

/// Turn the raw recognized fields into a validated `ItemInfo`, applying the
/// documented defaults: unset kind is a theorem, unset state is a draft,
/// unset dependencies are empty, unset hidden flag is false.
pub fn info_from_raw(raw: RawInfo) -> (r: Result<ItemInfo, String>)
    ensures
        match r {
            Ok(info) => spec_info_from_raw(raw@) == Ok::<ItemInfoV, Seq<char>>(info@),
            Err(m) => spec_info_from_raw(raw@) == Err::<ItemInfoV, Seq<char>>(m@),
        },
{
    let kind: ItemType = match raw.kind {
        None => ItemType::Theorem,
        Some(None) => {
            return Err("invalid front matter field: type".to_owned());
        },
        Some(Some(s)) => {
            if s == "Theorem".to_owned() {
                ItemType::Theorem
            } else if s == "Definition".to_owned() {
                ItemType::Definition
            } else {
                return Err("invalid front matter field: type".to_owned());
            }
        },
    };
    let state: ItemState = match raw.state {
        None => ItemState::Draft,
        Some(None) => {
            return Err("invalid front matter field: state".to_owned());
        },
        Some(Some(s)) => {
            if s == "Draft".to_owned() {
                ItemState::Draft
            } else if s == "ReadyForStmt".to_owned() {
                ItemState::ReadyForStmt
            } else if s == "StmtFormalized".to_owned() {
                ItemState::StmtFormalized
            } else if s == "ReadyForProof".to_owned() {
                ItemState::ReadyForProof
            } else if s == "Formalized".to_owned() {
                ItemState::Formalized
            } else {
                return Err("invalid front matter field: state".to_owned());
            }
        },
    };
    let statement: Option<String> = match raw.statement {
        None => None,
        Some(None) => {
            return Err("invalid front matter field: statement".to_owned());
        },
        Some(Some(s)) => Some(s),
    };
    let dependencies: Vec<String> = match raw.dependencies {
        None => Vec::new(),
        Some(None) => {
            return Err("invalid front matter field: dependencies".to_owned());
        },
        Some(Some(v)) => v,
    };
    let hide: bool = match raw.hide {
        None => false,
        Some(None) => {
            return Err("invalid front matter field: hide".to_owned());
        },
        Some(Some(b)) => b,
    };
    let reference: Option<String> = match raw.reference {
        None => None,
        Some(None) => {
            return Err("invalid front matter field: reference".to_owned());
        },
        Some(Some(s)) => Some(s),
    };
    let wikipedia: Option<String> = match raw.wikipedia {
        None => None,
        Some(None) => {
            return Err("invalid front matter field: wikipedia".to_owned());
        },
        Some(Some(s)) => Some(s),
    };
    let info = ItemInfo { kind, state, statement, dependencies, hide, reference, wikipedia };
    proof {
        assert(spec_info_from_raw(raw@) matches Ok(x) && x =~= info@);
    }
    Ok(info)
}

/// What scanning one directory entry of a project yields: nothing for a
/// subdirectory, the project description source, or a hidden item; an item
/// otherwise; and the first fatal decode error if one arises.
pub open spec fn spec_item_of(name: Seq<char>, is_dir: bool, text: Seq<char>) -> Result<
    Option<ItemV>,
    ErrorV,
> {
    if is_dir || name == "README"@ {
        Ok(None)
    } else {
        match matter_split_of(text) {
            None => Err(ErrorV::Custom("Could not parse front matter for "@ + name)),
            Some((matter_part, markdown_part)) => match raw_info_of(matter_part) {
                Err(m) => Err(ErrorV::Toml(m)),
                Ok(raw) => match spec_info_from_raw(raw) {
                    Err(m) => Err(ErrorV::Toml(m)),
                    Ok(info) => if info.hide {
                        Ok(None)
                    } else {
                        Ok(Some(ItemV { name, info, body: html_of(markdown_part) }))
                    },
                },
            },
        }
    }
}

/// The abstract value of an item scan result.
pub open spec fn spec_item_result_view(r: Result<Option<Item>, Error>) -> Result<
    Option<ItemV>,
    ErrorV,
> {
    match r {
        Ok(None) => Ok(None),
        Ok(Some(item)) => Ok(Some(item@)),
        Err(e) => Err(e@),
    }
}

impl Item {
    /// Scan one directory entry of a project: subdirectories and the
    /// project's own description source yield no item; any other entry must
    /// split into front matter and content and decode, or the whole build
    /// fails; a hidden item is dropped from the model entirely.
    pub fn from_source(name: &String, is_dir: bool, text: &String) -> (r: Result<
        Option<Item>,
        Error,
    >)
        ensures
            spec_item_result_view(r) == spec_item_of(name@, is_dir, text@),
    {
        if is_dir || *name == "README".to_owned() {
            return Ok(None);
        }
        let (matter_part, markdown_part) = match split_matter(text) {
            None => {
                return Err(
                    Error::Custom("Could not parse front matter for ".to_owned().concat(name.as_str())),
                );
            },
            Some(p) => p,
        };
        let raw = match decode_raw_info(&matter_part) {
            Err(m) => {
                return Err(Error::Toml(m));
            },
            Ok(raw) => raw,
        };
        let info = match info_from_raw(raw) {
            Err(m) => {
                return Err(Error::Toml(m));
            },
            Ok(i) => i,
        };
        if info.hide {
            return Ok(None);
        }
        let body = markdown_to_html(&markdown_part);
        Ok(Some(Item { name: name.clone(), info, body }))
    }

    /// The name of the output file this item is rendered to.
    pub fn output_file_name(&self) -> (r: String)
        ensures
            r@ == self.name@ + ".html"@,
    {
        self.name.clone().concat(".html")
    }
}

} // verus!
