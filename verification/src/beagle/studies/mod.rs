//! What every study keeps: where its inputs are, where its outputs go, and
//! the colour of each category in the charts.

use vstd::prelude::*;

pub mod evolution;

verus! {

/// The files that a study reads.
#[derive(Debug)]
pub struct InputFiles {
    pub clusters_path: String,
    pub constants_path: String,
    pub profiles_path: String,
    pub platform_specs: Option<String>,
}

/// Mathematical value of an [`InputFiles`].
pub struct InputFilesView {
    pub clusters_path: Seq<char>,
    pub constants_path: Seq<char>,
    pub profiles_path: Seq<char>,
    pub platform_specs: Option<Seq<char>>,
}

impl View for InputFiles {
    type V = InputFilesView;

    open spec fn view(&self) -> InputFilesView {
        InputFilesView {
            clusters_path: self.clusters_path@,
            constants_path: self.constants_path@,
            profiles_path: self.profiles_path@,
            platform_specs: self.platform_specs.deep_view(),
        }
    }
}

impl Clone for InputFiles {
    fn clone(&self) -> (res: Self)
        ensures
            res@ == self@,
    {
        InputFiles {
            clusters_path: self.clusters_path.clone(),
            constants_path: self.constants_path.clone(),
            profiles_path: self.profiles_path.clone(),
            platform_specs: crate::copies::clone_opt_string(&self.platform_specs),
        }
    }
}

/// The colour of one category.
#[derive(Debug)]
pub struct ColorEntry {
    pub category: String,
    pub color: String,
}

/// Mathematical value of a [`ColorEntry`].
pub struct ColorEntryView {
    pub category: Seq<char>,
    pub color: Seq<char>,
}

impl View for ColorEntry {
    type V = ColorEntryView;

    open spec fn view(&self) -> ColorEntryView {
        ColorEntryView { category: self.category@, color: self.color@ }
    }
}

impl DeepView for ColorEntry {
    type V = ColorEntryView;

    open spec fn deep_view(&self) -> ColorEntryView {
        self@
    }
}

impl Clone for ColorEntry {
    fn clone(&self) -> (res: Self)
        ensures
            res@ == self@,
    {
        ColorEntry { category: self.category.clone(), color: self.color.clone() }
    }
}

/// The colours of the categories: the two kinds of aggregator of one shape
/// share a colour, and the palette can be told apart by the colour-blind.
pub open spec fn color_table() -> Seq<ColorEntryView> {
    seq![
        ColorEntryView { category: "StarSimple"@, color: "#a6cee3"@ },
        ColorEntryView { category: "StarAsynchronous"@, color: "#a6cee3"@ },
        ColorEntryView { category: "RingUniSimple"@, color: "#1f78b4"@ },
        ColorEntryView { category: "RingUniAsynchronous"@, color: "#1f78b4"@ },
        ColorEntryView { category: "StarStarHierarchical"@, color: "#b2df8a"@ },
        ColorEntryView { category: "StarStarHierarchicalAsync"@, color: "#b2df8a"@ },
        ColorEntryView { category: "RingUniRingUniHierarchical"@, color: "#33a02c"@ },
        ColorEntryView { category: "RingUniRingUniHierarchicalAsync"@, color: "#33a02c"@ },
    ]
}

/// The colour of a category in a table: that of the first entry for the
/// category, if there is one.
pub open spec fn color_in(table: Seq<ColorEntryView>, category: Seq<char>) -> Option<Seq<char>> {
    match crate::search::first_where(table, for_category(category)) {
        Some(i) => Some(table[i].color),
        None => None,
    }
}

/// The condition "is the entry of `category`".
pub open spec fn for_category(category: Seq<char>) -> spec_fn(ColorEntryView) -> bool {
    |e: ColorEntryView| e.category == category
}

/// The directories that a study writes to: its output directory and, in it,
/// one for the logs, one for the deployments and one for the platforms.
pub open spec fn study_directories(output_dir: Seq<char>) -> Seq<Seq<char>> {
    seq![output_dir, output_dir + "/logs"@, output_dir + "/fried"@, output_dir + "/platform"@]
}

/// What every study keeps.
#[derive(Debug)]
pub struct StudyBase {
    pub input_files: InputFiles,
    pub name: String,
    pub output_dir: String,
    pub color_map: Vec<ColorEntry>,
}

/// Mathematical value of a [`StudyBase`].
pub struct StudyBaseView {
    pub input_files: InputFilesView,
    pub name: Seq<char>,
    pub output_dir: Seq<char>,
    pub color_map: Seq<ColorEntryView>,
}

impl View for StudyBase {
    type V = StudyBaseView;

    open spec fn view(&self) -> StudyBaseView {
        StudyBaseView {
            input_files: self.input_files@,
            name: self.name@,
            output_dir: self.output_dir@,
            color_map: self.color_map.deep_view(),
        }
    }
}

impl Clone for StudyBase {
    fn clone(&self) -> (res: Self)
        ensures
            res@ == self@,
    {
        StudyBase {
            input_files: self.input_files.clone(),
            name: self.name.clone(),
            output_dir: self.output_dir.clone(),
            color_map: crate::copies::clone_vec(&self.color_map),
        }
    }
}

/// One entry of the colour table.
fn entry(category: &str, color: &str) -> (res: ColorEntry)
    ensures
        res@ == (ColorEntryView { category: category@, color: color@ }),
{
    ColorEntry { category: category.to_string(), color: color.to_string() }
}

impl StudyBase {
    /// Makes the base of a study, with the colours of the categories.
    pub fn new(name: String, output_dir: String, input_files: InputFiles) -> (res: StudyBase)
        ensures
            res@ == (StudyBaseView {
                input_files: input_files@,
                name: name@,
                output_dir: output_dir@,
                color_map: color_table(),
            }),
    {
        StudyBase { name, output_dir, input_files, color_map: StudyBase::init_color_map() }
    }

    /// The colours of the categories.
    pub fn init_color_map() -> (res: Vec<ColorEntry>)
        ensures
            res.deep_view() == color_table(),
    {
        let mut color_map: Vec<ColorEntry> = Vec::new();
        color_map.push(entry("StarSimple", "#a6cee3"));
        color_map.push(entry("StarAsynchronous", "#a6cee3"));
        color_map.push(entry("RingUniSimple", "#1f78b4"));
        color_map.push(entry("RingUniAsynchronous", "#1f78b4"));
        color_map.push(entry("StarStarHierarchical", "#b2df8a"));
        color_map.push(entry("StarStarHierarchicalAsync", "#b2df8a"));
        color_map.push(entry("RingUniRingUniHierarchical", "#33a02c"));
        color_map.push(entry("RingUniRingUniHierarchicalAsync", "#33a02c"));
        assert(color_map.deep_view() =~= color_table());
        color_map
    }

    /// The colour of a category, if the study has one for it.
    pub fn color_of(&self, category: &str) -> (res: Option<&String>)
        ensures
            res.deep_view() == color_in(self@.color_map, category@),
    {
        let name = category.to_string();
        let mut i: usize = 0;
        while i < self.color_map.len()
            invariant
                i <= self.color_map.len(),
                name@ == category@,
                forall|k: int|
                    0 <= k < i ==> !for_category(category@)(#[trigger] self@.color_map[k]),
            decreases self.color_map.len() - i,
        {
            assert(self@.color_map[i as int] == self.color_map[i as int]@);
            if self.color_map[i].category == name {
                proof {
                    crate::search::lemma_first_where_found(
                        self@.color_map,
                        for_category(category@),
                        i as int,
                    );
                }
                return Some(&self.color_map[i].color);
            }
            i += 1;
        }
        proof {
            crate::search::lemma_first_where_absent(self@.color_map, for_category(category@));
        }
        None
    }

    /// The directories that the study writes to.
    pub fn directories(&self) -> (res: Vec<String>)
        ensures
            res.deep_view() == study_directories(self@.output_dir),
    {
        let mut res: Vec<String> = Vec::new();
        res.push(self.output_dir.clone());
        res.push(self.output_dir.clone().concat("/logs"));
        res.push(self.output_dir.clone().concat("/fried"));
        res.push(self.output_dir.clone().concat("/platform"));
        assert(res.deep_view() =~= study_directories(self@.output_dir));
        res
    }
}

} // verus!
