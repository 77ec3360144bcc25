//! Projects: one named collection of items per top-level directory, with
//! a description body from its own README. Scanning a project's entries,
//! the per-file fatal-error policy, and the required-README rule are this
//! module's fully specified logic; reading the directory itself is left to
//! the caller, which hands the entries over as plain values.

use vstd::prelude::*;
use vstd::string::StringExecFns;

use crate::graph::{spec_graph_of, spec_vg_reps, svg_of, DepGraph};
use crate::item::{spec_item_of, views_of_items, Item, ItemV};
use crate::nav::Nav;
use crate::text::{html_of, markdown_to_html, strip_svg_dimensions, svg_dims_stripped_of};
use crate::{Error, ErrorV};

verus! {

/// One directory entry of a project directory, as read by the caller: the
/// entry's base name, whether it is a subdirectory, and the file text
/// (empty for a subdirectory, which is never looked at).
pub struct ScanEntry {
    pub name: String,
    pub is_dir: bool,
    pub text: String,
}

/// The abstract value of a `ScanEntry`.
pub ghost struct ScanEntryV {
    pub name: Seq<char>,
    pub is_dir: bool,
    pub text: Seq<char>,
}

impl View for ScanEntry {
    type V = ScanEntryV;

    open spec fn view(&self) -> ScanEntryV {
        ScanEntryV { name: self.name@, is_dir: self.is_dir, text: self.text@ }
    }
}

/// The abstract values of a sequence of scan entries.
pub open spec fn views_of_entries(entries: Seq<ScanEntry>) -> Seq<ScanEntryV> {
    entries.map(|i: int, e: ScanEntry| e@)
}

/// A project: its directory name, its non-hidden items in scan order, and
/// its description body.
pub struct Project {
    pub name: String,
    pub items: Vec<Item>,
    pub body: String,
}

/// The abstract value of a `Project`.
#[verifier::ext_equal]
pub ghost struct ProjectV {
    pub name: Seq<char>,
    pub items: Seq<ItemV>,
    pub body: Seq<char>,
}

impl View for Project {
    type V = ProjectV;

    open spec fn view(&self) -> ProjectV {
        ProjectV { name: self.name@, items: views_of_items(self.items@), body: self.body@ }
    }
}

/// The data of a project page: the project, the navigation index, and the
/// serialized dependency diagram embedded verbatim.
pub struct ProjectPage<'a> {
    pub project: &'a Project,
    pub nav: &'a Nav<'a>,
    pub dependencies: String,
}

/// The items of the first `i` scan entries: hidden items and non-item
/// entries dropped, the first fatal decode error aborting the whole scan.
pub open spec fn spec_items_scanned(entries: Seq<ScanEntryV>, i: int) -> Result<
    Seq<ItemV>,
    ErrorV,
>
    decreases i,
{
    if i <= 0 {
        Ok(Seq::empty())
    } else {
        match spec_items_scanned(entries, i - 1) {
            Err(e) => Err(e),
            Ok(acc) => match spec_item_of(
                entries[i - 1].name,
                entries[i - 1].is_dir,
                entries[i - 1].text,
            ) {
                Err(e) => Err(e),
                Ok(None) => Ok(acc),
                Ok(Some(it)) => Ok(acc.push(it)),
            },
        }
    }
}

/// What scanning a project directory yields: its items, then — only once
/// all items scanned without a fatal error — the required description
/// source, whose absence fails the project by name.
pub open spec fn spec_project_of(
    name: Seq<char>,
    readme: Option<Seq<char>>,
    entries: Seq<ScanEntryV>,
) -> Result<ProjectV, ErrorV> {
    match spec_items_scanned(entries, entries.len() as int) {
        Err(e) => Err(e),
        Ok(items) => match readme {
            None => Err(ErrorV::Custom("No README.md file for project "@ + name)),
            Some(text) => Ok(ProjectV { name, items, body: html_of(text) }),
        },
    }
}

/// The abstract value of a project scan result.
pub open spec fn spec_project_result_view(r: Result<Project, Error>) -> Result<
    ProjectV,
    ErrorV,
> {
    match r {
        Ok(p) => Ok(p@),
        Err(e) => Err(e@),
    }
}

/// Whether a root directory entry is scanned as a project: a directory
/// not named like the output directory and not dot-prefixed.
pub fn is_project_entry(name: &String, is_dir: bool) -> (r: bool)
    ensures
        r == (is_dir && name@ != "build"@ && !(name@.len() > 0 && name@[0] == '.')),
{
    is_dir && !(*name == crate::OUT_DIR.to_owned()) && !crate::text::starts_with_char(name, '.')
}

/// The index of the first item at or after `i` whose name is `name`, or a
/// negative value when there is none.
pub open spec fn spec_find_item_from(items: Seq<ItemV>, name: Seq<char>, i: int) -> int
    decreases items.len() - i,
{
    if i < 0 || i >= items.len() {
        -1
    } else if items[i].name == name {
        i
    } else {
        spec_find_item_from(items, name, i + 1)
    }
}

impl Project {
    /// Build a project from its scanned directory entries. Every entry is
    /// decoded in scan order and the first malformed item file fails the
    /// whole build; a project whose entries all scan but which lacks its
    /// description source fails with an error naming it.
    pub fn from_scan(name: String, readme: Option<String>, entries: &Vec<ScanEntry>) -> (r:
        Result<Project, Error>)
        ensures
            spec_project_result_view(r) == spec_project_of(
                name@,
                match readme {
                    Some(t) => Some(t@),
                    None => None,
                },
                views_of_entries(entries@),
            ),
    {
        let ghost entries_v = views_of_entries(entries@);
        let mut items: Vec<Item> = Vec::new();
        proof {
            assert(views_of_items(items@) =~= Seq::<ItemV>::empty());
        }
        let mut i: usize = 0;
        while i < entries.len()
            invariant
                0 <= i <= entries@.len(),
                entries_v == views_of_entries(entries@),
                spec_items_scanned(entries_v, i as int) == Ok::<Seq<ItemV>, ErrorV>(
                    views_of_items(items@),
                ),
            decreases entries@.len() - i,
        {
            let entry = &entries[i];
            let ghost prev = views_of_items(items@);
            match Item::from_source(&entry.name, entry.is_dir, &entry.text) {
                Err(e) => {
                    proof {
                        lemma_scan_error_persists(entries_v, i as int + 1, entries_v.len() as int);
                    }
                    return Err(e);
                },
                Ok(None) => {},
                Ok(Some(item)) => {
                    let ghost itv = item@;
                    items.push(item);
                    proof {
                        assert(views_of_items(items@) =~= prev.push(itv));
                    }
                },
            }
            i += 1;
        }
        proof {
            assert(spec_items_scanned(entries_v, entries_v.len() as int) == Ok::<
                Seq<ItemV>,
                ErrorV,
            >(views_of_items(items@)));
        }
        let text = match readme {
            None => {
                return Err(
                    Error::Custom(
                        "No README.md file for project ".to_owned().concat(name.as_str()),
                    ),
                );
            },
            Some(t) => t,
        };
        let body = markdown_to_html(&text);
        Ok(Project { name, items, body })
    }

    /// The first item carrying `name`, in scan order, if any.
    pub fn _get_item(&self, name: &String) -> (r: Option<&Item>)
        ensures
            match r {
                Some(item) => {
                    &&& spec_find_item_from(views_of_items(self.items@), name@, 0) >= 0
                    &&& item@ == views_of_items(self.items@)[spec_find_item_from(
                        views_of_items(self.items@),
                        name@,
                        0,
                    )]
                },
                None => spec_find_item_from(views_of_items(self.items@), name@, 0) < 0,
            },
    {
        let ghost views = views_of_items(self.items@);
        let mut k: usize = 0;
        while k < self.items.len()
            invariant
                0 <= k <= self.items@.len(),
                views == views_of_items(self.items@),
                spec_find_item_from(views, name@, 0) == spec_find_item_from(
                    views,
                    name@,
                    k as int,
                ),
            decreases self.items@.len() - k,
        {
            if self.items[k].name == *name {
                return Some(&self.items[k]);
            }
            k += 1;
        }
        None
    }

    /// The serialized dependency diagram of this project, its fixed root
    /// dimension declaration stripped so it scales to its container. A
    /// project without visible items has nothing to lay out and yields
    /// the empty diagram text.
    pub fn render_dependency_graph(&self) -> (r: Result<String, Error>)
        ensures
            r matches Ok(s) && s@ == spec_diagram_of(views_of_items(self.items@)),
    {
        let g = match DepGraph::build(&self.items) {
            Err(e) => {
                return Err(e);
            },
            Ok(g) => g,
        };
        if g.nodes.len() == 0 {
            return Ok(String::new());
        }
        let svg = g.to_svg();
        Ok(strip_svg_dimensions(&svg))
    }

    /// The names of the output files of this project: one per item, in
    /// scan order, then the project page itself.
    pub fn output_file_names(&self) -> (v: Vec<String>)
        ensures
            v@.len() == self.items@.len() + 1,
            forall|k: int|
                0 <= k < self.items@.len() ==> #[trigger] v@[k]@ == views_of_items(self.items@)[k].name
                    + ".html"@,
            v@[self.items@.len() as int]@ == "index.html"@,
    {
        let mut v: Vec<String> = Vec::new();
        let mut k: usize = 0;
        while k < self.items.len()
            invariant
                0 <= k <= self.items@.len(),
                v@.len() == k,
                forall|l: int|
                    0 <= l < k ==> #[trigger] v@[l]@ == views_of_items(self.items@)[l].name
                        + ".html"@,
            decreases self.items@.len() - k,
        {
            v.push(self.items[k].output_file_name());
            k += 1;
        }
        v.push("index.html".to_owned());
        v
    }
}

/// The diagram text of an item sequence: its dependency graph rendered
/// and the root dimensions stripped; empty when there is no node to lay
/// out.
pub open spec fn spec_diagram_of(items: Seq<ItemV>) -> Seq<char> {
    let g = spec_graph_of(items);
    if g.nodes.len() == 0 {
        Seq::empty()
    } else {
        svg_dims_stripped_of(svg_of(spec_vg_reps(g.nodes), g.edges))
    }
}

/// Law: a scanned entry never yields a hidden item — hiding removes the
/// item from the content model entirely, so it can appear neither as an
/// output file nor as an item node of the diagram.
pub proof fn lemma_item_of_visible(name: Seq<char>, is_dir: bool, text: Seq<char>)
    ensures
        spec_item_of(name, is_dir, text) matches Ok(Some(it)) ==> !it.info.hide,
{
}

/// Law: every item of a scanned project is non-hidden — together with
/// `output_file_names`, the output files of a built project are exactly
/// one `<name>.html` per non-hidden scanned item, plus the project page.
pub proof fn lemma_project_items_visible(
    name: Seq<char>,
    readme: Option<Seq<char>>,
    entries: Seq<ScanEntryV>,
)
    ensures
        spec_project_of(name, readme, entries) matches Ok(p) ==> forall|k: int|
            0 <= k < p.items.len() ==> !(#[trigger] p.items[k]).info.hide,
{
    lemma_scanned_items_visible(entries, entries.len() as int);
}

/// Every item yielded by the first `i` entries is non-hidden.
proof fn lemma_scanned_items_visible(entries: Seq<ScanEntryV>, i: int)
    ensures
        spec_items_scanned(entries, i) matches Ok(items) ==> forall|k: int|
            0 <= k < items.len() ==> !(#[trigger] items[k]).info.hide,
    decreases i,
{
    if i > 0 {
        lemma_scanned_items_visible(entries, i - 1);
        lemma_item_of_visible(entries[i - 1].name, entries[i - 1].is_dir, entries[i - 1].text);
    }
}

/// Law: one build pass is a pure function of the scanned content — equal
/// content roots yield equal projects and equal diagram texts, so running
/// a build twice over unchanged content writes byte-identical outputs.
pub proof fn lemma_build_deterministic(
    name1: Seq<char>,
    readme1: Option<Seq<char>>,
    entries1: Seq<ScanEntryV>,
    name2: Seq<char>,
    readme2: Option<Seq<char>>,
    entries2: Seq<ScanEntryV>,
)
    requires
        name1 == name2,
        readme1 == readme2,
        entries1 == entries2,
    ensures
        spec_project_of(name1, readme1, entries1) == spec_project_of(name2, readme2, entries2),
{
}

/// Law: the diagram text is a pure function of the item sequence.
pub proof fn lemma_diagram_deterministic(a: Seq<ItemV>, b: Seq<ItemV>)
    requires
        a == b,
    ensures
        spec_diagram_of(a) == spec_diagram_of(b),
{
}

/// A scan that has failed stays failed through the remaining entries.
pub proof fn lemma_scan_error_persists(entries: Seq<ScanEntryV>, i: int, n: int)
    requires
        0 <= i <= n,
        spec_items_scanned(entries, i) is Err,
    ensures
        spec_items_scanned(entries, n) == spec_items_scanned(entries, i),
    decreases n - i,
{
    if i < n {
        lemma_scan_error_persists(entries, i + 1, n);
    }
}

} // verus!
