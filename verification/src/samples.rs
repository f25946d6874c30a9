//! The sample corpus: its descriptors, the metadata document that lists them
//! and the samples as they are handed to the judge.

use vstd::prelude::*;
use vstd::string::StringExecFns;
use crate::error::HelperError;
use crate::json_doc::{
    as_text, as_u32, dump_json, dumped_json, json_doc_of, json_tree, json_value_of, member,
    lemma_push_member, parse_json, parsed_json, push_member, spec_as_text, spec_as_u32,
    spec_canonical, spec_find, spec_member, spec_push_member, JsonDoc, JsonMember, JsonTree,
};
use crate::markup::{get_luogu_problem_content, parsed_markup};
use crate::text::{decimal, spec_decimal};
use crate::web::{get_test_case_from_luogu_tree, spec_test_cases};

verus! {

/// One sample, ready for judging: the input fed to the target, the output
/// expected of it, and its limits and weight.
#[derive(Debug, PartialEq, Eq)]
pub struct SampleInfo {
    pub expected_in: String,
    pub expected_out: String,
    /// The wall-clock limit in milliseconds.
    pub timeout: u32,
    /// The declared memory limit; it is recorded and never enforced.
    pub memory_limit: u32,
    /// The points awarded where the sample is passed.
    pub points: u32,
}

/// A `SampleInfo` with its texts as character sequences.
pub struct SampleInfoView {
    pub expected_in: Seq<char>,
    pub expected_out: Seq<char>,
    pub timeout: u32,
    pub memory_limit: u32,
    pub points: u32,
}

impl View for SampleInfo {
    type V = SampleInfoView;

    open spec fn view(&self) -> SampleInfoView {
        SampleInfoView {
            expected_in: self.expected_in@,
            expected_out: self.expected_out@,
            timeout: self.timeout,
            memory_limit: self.memory_limit,
            points: self.points,
        }
    }
}

impl DeepView for SampleInfo {
    type V = SampleInfoView;

    open spec fn deep_view(&self) -> SampleInfoView {
        self@
    }
}

/// One sample as the metadata document lists it: the names of its two
/// artifact files, which are relative to the document's directory, and its
/// limits and weight.
#[derive(Debug, PartialEq, Eq)]
pub struct SampleDescriptor {
    pub in_file: String,
    pub out_file: String,
    pub timeout_ms: u32,
    pub memory_limit: u32,
    pub points: u32,
}

/// A `SampleDescriptor` with its names as character sequences.
pub struct SampleDescriptorView {
    pub in_file: Seq<char>,
    pub out_file: Seq<char>,
    pub timeout_ms: u32,
    pub memory_limit: u32,
    pub points: u32,
}

impl View for SampleDescriptor {
    type V = SampleDescriptorView;

    open spec fn view(&self) -> SampleDescriptorView {
        SampleDescriptorView {
            in_file: self.in_file@,
            out_file: self.out_file@,
            timeout_ms: self.timeout_ms,
            memory_limit: self.memory_limit,
            points: self.points,
        }
    }
}

impl DeepView for SampleDescriptor {
    type V = SampleDescriptorView;

    open spec fn deep_view(&self) -> SampleDescriptorView {
        self@
    }
}

/// A file that is to be written: where, and with what content.
#[derive(Debug, PartialEq, Eq)]
pub struct FileWrite {
    pub path: String,
    pub content: String,
}

/// What a new sample needs on disk: two empty artifact files beside the
/// metadata document, and the document rewritten.
#[derive(Debug, PartialEq, Eq)]
pub struct NewSample {
    /// The index of the new sample.
    pub index: usize,
    /// The name of the input artifact, relative to the document's directory.
    pub in_file: String,
    /// The name of the output artifact, relative to the document's directory.
    pub out_file: String,
    /// The metadata document as it is to be written.
    pub document: FileWrite,
}

/// What reading the two artifact files of one sample gave: the text of each
/// file, or `None` where the file was missing or unreadable.
#[derive(Debug, PartialEq, Eq)]
pub struct ArtifactPair {
    pub descriptor: SampleDescriptor,
    pub input: Option<String>,
    pub output: Option<String>,
}

/// An `ArtifactPair` with its texts as character sequences.
pub struct ArtifactPairView {
    pub descriptor: SampleDescriptorView,
    pub input: Option<Seq<char>>,
    pub output: Option<Seq<char>>,
}

impl View for ArtifactPair {
    type V = ArtifactPairView;

    open spec fn view(&self) -> ArtifactPairView {
        ArtifactPairView {
            descriptor: self.descriptor@,
            input: self.input.deep_view(),
            output: self.output.deep_view(),
        }
    }
}

impl DeepView for ArtifactPair {
    type V = ArtifactPairView;

    open spec fn deep_view(&self) -> ArtifactPairView {
        self@
    }
}

/// One imported sample: its index, and the names and texts of the two
/// artifact files to write. The names are relative to the directory of the
/// metadata document.
#[derive(Debug, PartialEq, Eq)]
pub struct ImportedSample {
    pub index: usize,
    pub in_file: String,
    pub input: String,
    pub out_file: String,
    pub output: String,
}

/// An `ImportedSample` with its texts as character sequences.
pub struct ImportedSampleView {
    pub index: int,
    pub in_file: Seq<char>,
    pub input: Seq<char>,
    pub out_file: Seq<char>,
    pub output: Seq<char>,
}

impl View for ImportedSample {
    type V = ImportedSampleView;

    open spec fn view(&self) -> ImportedSampleView {
        ImportedSampleView {
            index: self.index as int,
            in_file: self.in_file@,
            input: self.input@,
            out_file: self.out_file@,
            output: self.output@,
        }
    }
}

impl DeepView for ImportedSample {
    type V = ImportedSampleView;

    open spec fn deep_view(&self) -> ImportedSampleView {
        self@
    }
}

/// What an import needs on disk: the artifacts of each new sample, written
/// with its texts, and the metadata document rewritten.
#[derive(Debug, PartialEq, Eq)]
pub struct ImportPlan {
    pub samples: Vec<ImportedSample>,
    pub document: FileWrite,
}

/// A corpus of samples: the metadata document that lists them and the path
/// of that document, beside which the artifact files lie.
#[derive(Debug)]
pub struct Samples {
    config: json::JsonValue,
    config_file_path: String,
}

/// The time limit of an imported sample, in milliseconds.
pub const IMPORT_TIMEOUT_MS: u32 = 1000;

/// The declared memory limit of an imported sample.
pub const IMPORT_MEMORY_LIMIT: u32 = 256;

/// The name of the member that holds the sample list.
pub open spec fn list_key() -> Seq<char> {
    "sample_list"@
}

/// The samples that document `doc` lists; `None` where it has no member
/// `sample_list` that is an array.
pub open spec fn spec_sample_list(doc: JsonTree) -> Option<Seq<JsonTree>> {
    match spec_member(doc, list_key()) {
        Some(JsonTree::Array(items)) => Some(items),
        _ => None,
    }
}

/// The text of member `key` of `entry`, where that is a string.
pub open spec fn spec_text_field(entry: JsonTree, key: Seq<char>) -> Option<Seq<char>> {
    match spec_member(entry, key) {
        Some(value) => spec_as_text(value),
        None => None,
    }
}

/// The number of member `key` of `entry`, where that is an unsigned 32-bit
/// number.
pub open spec fn spec_number_field(entry: JsonTree, key: Seq<char>) -> Option<u32> {
    match spec_member(entry, key) {
        Some(value) => spec_as_u32(value),
        None => None,
    }
}

/// The descriptor that list entry `entry` stands for; `None` where one of
/// its five fields is missing or ill-typed.
pub open spec fn spec_descriptor(entry: JsonTree) -> Option<SampleDescriptorView> {
    match (
        spec_text_field(entry, "in_file"@),
        spec_text_field(entry, "out_file"@),
        spec_number_field(entry, "timeout_ms"@),
        spec_number_field(entry, "memory_limit"@),
        spec_number_field(entry, "points"@),
    ) {
        (Some(in_file), Some(out_file), Some(timeout_ms), Some(memory_limit), Some(points)) => Some(
            SampleDescriptorView { in_file, out_file, timeout_ms, memory_limit, points },
        ),
        _ => None,
    }
}

/// What looking up sample `idx` in document `doc` gives: a corrupt corpus
/// where the document has no sample list, nothing where the list ends before
/// `idx`, and else the descriptor of entry `idx`, or a corrupt corpus where
/// that entry is malformed.
pub open spec fn spec_get(doc: JsonTree, idx: nat) -> Result<Option<SampleDescriptorView>, ()> {
    match spec_sample_list(doc) {
        None => Err(()),
        Some(list) => if idx >= list.len() {
            Ok(None)
        } else {
            match spec_descriptor(list[idx as int]) {
                Some(descriptor) => Ok(Some(descriptor)),
                None => Err(()),
            }
        },
    }
}

/// The descriptors of all samples that document `doc` lists, in order;
/// `None` where the document has no sample list or an entry is malformed.
pub open spec fn spec_descriptors(doc: JsonTree) -> Option<Seq<SampleDescriptorView>> {
    match spec_sample_list(doc) {
        Some(list) => if forall|i: int|
            0 <= i < list.len() ==> spec_descriptor(#[trigger] list[i]) is Some {
            Some(Seq::new(list.len(), |i: int| spec_descriptor(list[i])->0))
        } else {
            None
        },
        None => None,
    }
}

/// A JSON number that holds `n`.
pub open spec fn spec_number(n: u32) -> JsonTree {
    JsonTree::Number { nan: false, positive: true, mantissa: n as int, exponent: 0 }
}

/// The list entry that records `descriptor`.
pub open spec fn spec_entry(descriptor: SampleDescriptorView) -> JsonTree {
    JsonTree::Object(
        seq![
            JsonMember { name: "in_file"@, value: JsonTree::Text(descriptor.in_file) },
            JsonMember { name: "out_file"@, value: JsonTree::Text(descriptor.out_file) },
            JsonMember { name: "timeout_ms"@, value: spec_number(descriptor.timeout_ms) },
            JsonMember { name: "memory_limit"@, value: spec_number(descriptor.memory_limit) },
            JsonMember { name: "points"@, value: spec_number(descriptor.points) },
        ],
    )
}

/// The descriptor of a new sample at `index`: its artifacts are named by the
/// index, with the extensions `.in` and `.out`.
pub open spec fn spec_new_descriptor(
    index: nat,
    points: u32,
    timeout: u32,
    mem_limit: u32,
) -> SampleDescriptorView {
    SampleDescriptorView {
        in_file: spec_decimal(index) + ".in"@,
        out_file: spec_decimal(index) + ".out"@,
        timeout_ms: timeout,
        memory_limit: mem_limit,
        points,
    }
}

/// The document of a corpus without samples.
pub open spec fn spec_empty_document() -> JsonTree {
    JsonTree::Object(seq![JsonMember { name: list_key(), value: JsonTree::Array(Seq::empty()) }])
}

/// Document `doc` with a new sample appended to its list.
pub open spec fn spec_append(doc: JsonTree, points: u32, timeout: u32, mem_limit: u32) -> JsonTree {
    match spec_sample_list(doc) {
        Some(list) => spec_push_member(
            doc,
            list_key(),
            spec_entry(spec_new_descriptor(list.len(), points, timeout, mem_limit)),
        ),
        None => doc,
    }
}

/// Document `doc` after `count` samples of the same weight and limits are
/// appended one by one.
pub open spec fn spec_append_many(
    doc: JsonTree,
    count: nat,
    points: u32,
    timeout: u32,
    mem_limit: u32,
) -> JsonTree
    decreases count,
{
    if count == 0 {
        doc
    } else {
        spec_append(
            spec_append_many(doc, (count - 1) as nat, points, timeout, mem_limit),
            points,
            timeout,
            mem_limit,
        )
    }
}

/// Document `doc` after one sample is appended for each entry of `limits`,
/// which gives its points, its time limit and its memory limit.
pub open spec fn spec_append_all(doc: JsonTree, limits: Seq<(u32, u32, u32)>) -> JsonTree
    decreases limits.len(),
{
    if limits.len() == 0 {
        doc
    } else {
        spec_append(
            spec_append_all(doc, limits.drop_last()),
            limits.last().0,
            limits.last().1,
            limits.last().2,
        )
    }
}

/// The weight of each of `count` imported samples: an even share of one
/// hundred points, rounded down. What is lost by rounding is not made up.
pub open spec fn spec_each_point(count: nat) -> u32
    recommends
        count > 0,
{
    (100int / (count as int)) as u32
}

/// The sample imported from pair `i` of `cases` into a corpus that held
/// `start` samples.
pub open spec fn spec_imported(
    start: nat,
    cases: Seq<(Seq<char>, Seq<char>)>,
    i: int,
) -> ImportedSampleView {
    ImportedSampleView {
        index: start + i,
        in_file: spec_decimal((start + i) as nat) + ".in"@,
        input: cases[i].0,
        out_file: spec_decimal((start + i) as nat) + ".out"@,
        output: cases[i].1,
    }
}

/// What importing `cases` into a corpus with document `before` comes to:
/// the document `after` and the result `r`.
///
/// A corpus without sample list is corrupt and stays as it is. Else every
/// pair becomes a sample, in order, at the next free index, with an even
/// share of one hundred points and the limits of an import.
pub open spec fn spec_import_outcome(
    before: JsonTree,
    path: Seq<char>,
    cases: Seq<(Seq<char>, Seq<char>)>,
    after: JsonTree,
    r: Result<ImportPlan, HelperError>,
) -> bool {
    match spec_sample_list(before) {
        None => after == before && r matches Err(HelperError::CorruptCorpus),
        Some(list) => {
            &&& after == spec_append_many(
                before,
                cases.len(),
                spec_each_point(cases.len()),
                IMPORT_TIMEOUT_MS,
                IMPORT_MEMORY_LIMIT,
            )
            &&& r matches Ok(plan)
            &&& plan.samples@.len() == cases.len()
            &&& forall|i: int|
                0 <= i < cases.len() ==> (#[trigger] plan.samples@[i])@ == spec_imported(
                    list.len(),
                    cases,
                    i,
                )
            &&& plan.document.path@ == path
            &&& plan.document.content@ == dumped_json(after)
        },
    }
}

/// The sample that a descriptor and the texts of its artifacts make up, or
/// the name of the artifact that could not be read: the input where that is
/// missing, else the output.
pub open spec fn spec_materialize(pair: ArtifactPairView) -> Result<SampleInfoView, Seq<char>> {
    match (pair.input, pair.output) {
        (Some(input), Some(output)) => Ok(
            SampleInfoView {
                expected_in: input,
                expected_out: output,
                timeout: pair.descriptor.timeout_ms,
                memory_limit: pair.descriptor.memory_limit,
                points: pair.descriptor.points,
            },
        ),
        (None, _) => Err(pair.descriptor.in_file),
        (Some(_), None) => Err(pair.descriptor.out_file),
    }
}

/// The samples that `pairs` make up, in order, or the name of the first
/// artifact that could not be read.
pub open spec fn spec_collect(pairs: Seq<ArtifactPairView>) -> Result<Seq<SampleInfoView>, Seq<char>>
    decreases pairs.len(),
{
    if pairs.len() == 0 {
        Ok(Seq::empty())
    } else {
        match spec_collect(pairs.drop_last()) {
            Err(path) => Err(path),
            Ok(samples) => match spec_materialize(pairs.last()) {
                Ok(sample) => Ok(samples.push(sample)),
                Err(path) => Err(path),
            },
        }
    }
}

/// The sample list of document `doc`; `None` where it has none.
pub fn sample_list(doc: &JsonDoc) -> (found: Option<&Vec<JsonDoc>>)
    ensures
        match spec_sample_list(doc@) {
            Some(list) => found matches Some(items) && items.deep_view() == list,
            None => found is None,
        },
{
    match member(doc, "sample_list") {
        Some(JsonDoc::Array(items)) => {
            Some(items)
        },
        _ => None,
    }
}

/// The descriptor that list entry `entry` stands for; `None` where one of
/// its five fields is missing or ill-typed.
pub fn descriptor_of(entry: &JsonDoc) -> (found: Option<SampleDescriptor>)
    ensures
        found.deep_view() == spec_descriptor(entry@),
{
    let in_file = match member(entry, "in_file") {
        Some(value) => as_text(value),
        None => None,
    };
    let out_file = match member(entry, "out_file") {
        Some(value) => as_text(value),
        None => None,
    };
    let timeout_ms = match member(entry, "timeout_ms") {
        Some(value) => as_u32(value),
        None => None,
    };
    let memory_limit = match member(entry, "memory_limit") {
        Some(value) => as_u32(value),
        None => None,
    };
    let points = match member(entry, "points") {
        Some(value) => as_u32(value),
        None => None,
    };
    match (in_file, out_file, timeout_ms, memory_limit, points) {
        (Some(in_file), Some(out_file), Some(timeout_ms), Some(memory_limit), Some(points)) => Some(
            SampleDescriptor {
                in_file: in_file.clone(),
                out_file: out_file.clone(),
                timeout_ms,
                memory_limit,
                points,
            },
        ),
        _ => None,
    }
}

/// Looks up sample `idx` in document `doc`.
pub fn lookup(doc: &JsonDoc, idx: usize) -> (r: Result<Option<SampleDescriptor>, HelperError>)
    ensures
        match spec_get(doc@, idx as nat) {
            Ok(found) => r matches Ok(descriptor) && descriptor.deep_view() == found,
            Err(_) => r matches Err(HelperError::CorruptCorpus),
        },
{
    match sample_list(doc) {
        Some(items) => {
            if idx >= items.len() {
                Ok(None)
            } else {
                match descriptor_of(&items[idx]) {
                    Some(descriptor) => Ok(Some(descriptor)),
                    None => Err(HelperError::CorruptCorpus),
                }
            }
        },
        None => Err(HelperError::CorruptCorpus),
    }
}

/// The descriptors of all samples that document `doc` lists, in the order
/// of their indices.
pub fn all_descriptors(doc: &JsonDoc) -> (r: Result<Vec<SampleDescriptor>, HelperError>)
    ensures
        match spec_descriptors(doc@) {
            Some(all) => r matches Ok(found) && found.deep_view() == all,
            None => r matches Err(HelperError::CorruptCorpus),
        },
{
    match sample_list(doc) {
        Some(items) => {
            let ghost list = spec_sample_list(doc@)->0;
            let mut found: Vec<SampleDescriptor> = Vec::new();
            let mut i: usize = 0;
            while i < items.len()
                invariant
                    i <= items.len(),
                    spec_sample_list(doc@) == Some(list),
                    list == items.deep_view(),
                    found@.len() == i,
                    forall|k: int|
                        0 <= k < i ==> spec_descriptor(#[trigger] list[k]) == Some(found@[k]@),
                decreases items.len() - i,
            {
                assert(list[i as int] == items@[i as int]@);
                match descriptor_of(&items[i]) {
                    Some(descriptor) => {
                        found.push(descriptor);
                    },
                    None => {
                        return Err(HelperError::CorruptCorpus);
                    },
                }
                i += 1;
            }
            Ok(found)
        },
        None => Err(HelperError::CorruptCorpus),
    }
}

/// A JSON number that holds `n`.
fn number_doc(n: u32) -> (doc: JsonDoc)
    ensures
        doc@ == spec_number(n),
{
    JsonDoc::Number { nan: false, positive: true, mantissa: n as u64, exponent: 0 }
}

/// The list entry that records `descriptor`.
pub fn entry_of(descriptor: &SampleDescriptor) -> (doc: JsonDoc)
    ensures
        doc@ == spec_entry(descriptor@),
        spec_canonical(doc@),
{
    let mut members: Vec<(String, JsonDoc)> = Vec::new();
    members.push((String::from_str("in_file"), JsonDoc::Text(descriptor.in_file.clone())));
    members.push((String::from_str("out_file"), JsonDoc::Text(descriptor.out_file.clone())));
    members.push((String::from_str("timeout_ms"), number_doc(descriptor.timeout_ms)));
    members.push((String::from_str("memory_limit"), number_doc(descriptor.memory_limit)));
    members.push((String::from_str("points"), number_doc(descriptor.points)));
    proof {
        lemma_entry_descriptor(descriptor@);
        assert(members@[0].1@ == JsonTree::Text(descriptor.in_file@));
        assert(members@[1].1@ == JsonTree::Text(descriptor.out_file@));
    }
    let doc = JsonDoc::Object(members);
    assert(doc@->Object_0 =~= spec_entry(descriptor@)->Object_0);
    doc
}

/// The document of a corpus without samples.
pub fn empty_document() -> (doc: JsonDoc)
    ensures
        doc@ == spec_empty_document(),
        spec_canonical(doc@),
{
    let mut members: Vec<(String, JsonDoc)> = Vec::new();
    members.push((String::from_str("sample_list"), JsonDoc::Array(Vec::new())));
    proof {
        reveal_with_fuel(spec_canonical, 3);
        assert(members@[0].1@->Array_0 =~= Seq::<JsonTree>::empty());
    }
    let doc = JsonDoc::Object(members);
    assert(doc@->Object_0 =~= spec_empty_document()->Object_0);
    doc
}

impl Samples {
    /// The metadata document.
    pub closed spec fn document(&self) -> JsonTree {
        json_tree(self.config)
    }

    /// The path of the metadata document.
    pub closed spec fn path(&self) -> Seq<char> {
        self.config_file_path@
    }

    /// Opens the corpus whose metadata document lies at `filename` and reads
    /// `content`. The corpus is corrupt where the content is no JSON document
    /// or has no sample list.
    pub fn from_file(filename: &str, content: &str) -> (r: Result<Samples, HelperError>)
        ensures
            match parsed_json(content@) {
                Some(doc) => if spec_sample_list(doc) is Some {
                    r matches Ok(samples) && samples.document() == doc && samples.path()
                        == filename@
                } else {
                    r matches Err(HelperError::CorruptCorpus)
                },
                None => r matches Err(HelperError::CorruptCorpus),
            },
    {
        match parse_json(content) {
            Err(_) => Err(HelperError::CorruptCorpus),
            Ok(config) => {
                let samples = Samples { config, config_file_path: String::from_str(filename) };
                match samples.check_config() {
                    Ok(()) => Ok(samples),
                    Err(error) => Err(error),
                }
            },
        }
    }

    /// Checks that the metadata document has a sample list.
    pub fn check_config(&self) -> (r: Result<(), HelperError>)
        ensures
            spec_sample_list(self.document()) is Some ==> r is Ok,
            spec_sample_list(self.document()) is None ==> r matches Err(HelperError::CorruptCorpus),
    {
        match sample_list(&json_doc_of(&self.config)) {
            Some(_) => Ok(()),
            None => Err(HelperError::CorruptCorpus),
        }
    }

    /// The number of samples.
    pub fn len(&self) -> (r: Result<usize, HelperError>)
        ensures
            match spec_sample_list(self.document()) {
                Some(list) => r == Ok::<usize, HelperError>(list.len() as usize) && list.len()
                    <= usize::MAX,
                None => r matches Err(HelperError::CorruptCorpus),
            },
    {
        match sample_list(&json_doc_of(&self.config)) {
            Some(items) => Ok(items.len()),
            None => Err(HelperError::CorruptCorpus),
        }
    }

    /// Looks up sample `idx`. An index past the end is no failure: it gives
    /// `None`, by which callers find the end of the corpus.
    pub fn get(&self, idx: usize) -> (r: Result<Option<SampleDescriptor>, HelperError>)
        ensures
            match spec_get(self.document(), idx as nat) {
                Ok(found) => r matches Ok(descriptor) && descriptor.deep_view() == found,
                Err(_) => r matches Err(HelperError::CorruptCorpus),
            },
    {
        lookup(&json_doc_of(&self.config), idx)
    }

    /// The metadata document of a fresh corpus, to be written at `filename`:
    /// a document with an empty sample list.
    pub fn create(filename: &str) -> (file: FileWrite)
        ensures
            file.path@ == filename@,
            file.content@ == dumped_json(spec_empty_document()),
    {
        let value = json_value_of(&empty_document());
        FileWrite { path: String::from_str(filename), content: dump_json(&value) }
    }

    /// The metadata document as it is to be written: the whole document, at
    /// its own path.
    pub fn save(&self) -> (file: FileWrite)
        ensures
            file.path@ == self.path(),
            file.content@ == dumped_json(self.document()),
    {
        FileWrite { path: self.config_file_path.clone(), content: dump_json(&self.config) }
    }

    /// Appends a sample with the given weight and limits. It takes the next
    /// index; its artifacts are named by that index. The result names the
    /// two artifact files to create and holds the document to write.
    pub fn create_sample(&mut self, points: u32, timeout: u32, mem_limit: u32) -> (r: Result<
        NewSample,
        HelperError,
    >)
        ensures
            final(self).path() == old(self).path(),
            final(self).document() == spec_append(old(self).document(), points, timeout, mem_limit),
            match spec_sample_list(old(self).document()) {
                Some(list) => r matches Ok(sample) && sample.index == list.len() && sample.in_file@
                    == spec_new_descriptor(list.len(), points, timeout, mem_limit).in_file
                    && sample.out_file@ == spec_new_descriptor(
                    list.len(),
                    points,
                    timeout,
                    mem_limit,
                ).out_file && sample.document.path@ == final(self).path()
                    && sample.document.content@ == dumped_json(final(self).document()),
                None => r matches Err(HelperError::CorruptCorpus),
            },
    {
        let index = match self.len() {
            Ok(index) => index,
            Err(error) => {
                return Err(error);
            },
        };
        let mut in_file = decimal(index);
        in_file.append(".in");
        let mut out_file = decimal(index);
        out_file.append(".out");
        let descriptor = SampleDescriptor {
            in_file: in_file.clone(),
            out_file: out_file.clone(),
            timeout_ms: timeout,
            memory_limit: mem_limit,
            points,
        };
        let entry = json_value_of(&entry_of(&descriptor));
        push_member(&mut self.config, "sample_list", entry);
        Ok(NewSample { index, in_file, out_file, document: self.save() })
    }

    /// The descriptors of all samples, in the order of their indices.
    pub fn descriptors(&self) -> (r: Result<Vec<SampleDescriptor>, HelperError>)
        ensures
            match spec_descriptors(self.document()) {
                Some(all) => r matches Ok(found) && found.deep_view() == all,
                None => r matches Err(HelperError::CorruptCorpus),
            },
    {
        all_descriptors(&json_doc_of(&self.config))
    }

    /// The metadata document as plain data.
    pub fn document_data(&self) -> (doc: JsonDoc)
        ensures
            doc@ == self.document(),
    {
        json_doc_of(&self.config)
    }

    /// The path of the metadata document.
    pub fn file_path(&self) -> (path: &str)
        ensures
            path@ == self.path(),
    {
        self.config_file_path.as_str()
    }

    /// Imports `cases`, the (input, output) pairs of a problem page, as new
    /// samples.
    pub fn import_cases(&mut self, cases: &Vec<(String, String)>) -> (r: Result<
        ImportPlan,
        HelperError,
    >)
        ensures
            final(self).path() == old(self).path(),
            spec_import_outcome(
                old(self).document(),
                old(self).path(),
                cases.deep_view(),
                final(self).document(),
                r,
            ),
    {
        let start = match self.len() {
            Ok(start) => start,
            Err(error) => {
                return Err(error);
            },
        };
        let mut samples: Vec<ImportedSample> = Vec::new();
        if cases.len() == 0 {
            return Ok(ImportPlan { samples, document: self.save() });
        }
        let each: u32 = (100 / cases.len()) as u32;
        let ghost before = self.document();
        let ghost all = cases.deep_view();
        let mut i: usize = 0;
        while i < cases.len()
            invariant
                i <= cases.len(),
                all == cases.deep_view(),
                self.path() == old(self).path(),
                before == old(self).document(),
                spec_sample_list(before) is Some,
                spec_sample_list(before)->0.len() == start,
                each == spec_each_point(cases.len() as nat),
                self.document() == spec_append_many(
                    before,
                    i as nat,
                    each,
                    IMPORT_TIMEOUT_MS,
                    IMPORT_MEMORY_LIMIT,
                ),
                samples@.len() == i,
                forall|k: int|
                    0 <= k < i ==> (#[trigger] samples@[k])@ == spec_imported(start as nat, all, k),
            decreases cases.len() - i,
        {
            proof {
                lemma_append_many_grows(
                    before,
                    i as nat,
                    each,
                    IMPORT_TIMEOUT_MS,
                    IMPORT_MEMORY_LIMIT,
                );
            }
            match self.create_sample(each, IMPORT_TIMEOUT_MS, IMPORT_MEMORY_LIMIT) {
                Ok(sample) => {
                    samples.push(
                        ImportedSample {
                            index: sample.index,
                            in_file: sample.in_file,
                            input: cases[i].0.clone(),
                            out_file: sample.out_file,
                            output: cases[i].1.clone(),
                        },
                    );
                },
                Err(error) => {
                    return Err(error);
                },
            }
            i += 1;
        }
        Ok(ImportPlan { samples, document: self.save() })
    }

    /// Imports the samples of a problem page. `fetched` is what retrieving
    /// the page gave: its text, or `None` where it could not be retrieved.
    /// A page that could not be retrieved or parsed changes nothing.
    pub fn load_sample_from_luogu(&mut self, fetched: Option<&str>) -> (r: Result<
        ImportPlan,
        HelperError,
    >)
        ensures
            final(self).path() == old(self).path(),
            match fetched {
                None => final(self).document() == old(self).document() && r matches Err(
                    HelperError::FetchError,
                ),
                Some(page) => match parsed_markup(page@) {
                    None => final(self).document() == old(self).document() && r matches Err(
                        HelperError::ParseError,
                    ),
                    Some(trees) => spec_import_outcome(
                        old(self).document(),
                        old(self).path(),
                        spec_test_cases(trees),
                        final(self).document(),
                        r,
                    ),
                },
            },
    {
        let page = match fetched {
            Some(page) => page,
            None => {
                return Err(HelperError::FetchError);
            },
        };
        match get_luogu_problem_content(page) {
            Err(error) => Err(error),
            Ok(nodes) => {
                let cases = get_test_case_from_luogu_tree(&nodes);
                self.import_cases(&cases)
            },
        }
    }
}

/// Makes the sample that a descriptor and the texts of its two artifacts
/// stand for. An unreadable artifact is an I/O failure that names the file.
pub fn materialize(pair: &ArtifactPair) -> (r: Result<SampleInfo, HelperError>)
    ensures
        match spec_materialize(pair@) {
            Ok(sample) => r matches Ok(made) && made@ == sample,
            Err(name) => r matches Err(HelperError::IOError { path }) && path@ == name,
        },
{
    match &pair.input {
        None => Err(HelperError::IOError { path: pair.descriptor.in_file.clone() }),
        Some(input) => match &pair.output {
            None => Err(HelperError::IOError { path: pair.descriptor.out_file.clone() }),
            Some(output) => Ok(
                SampleInfo {
                    expected_in: input.clone(),
                    expected_out: output.clone(),
                    timeout: pair.descriptor.timeout_ms,
                    memory_limit: pair.descriptor.memory_limit,
                    points: pair.descriptor.points,
                },
            ),
        },
    }
}

/// Makes all samples of a corpus, in order, or fails at the first artifact
/// that could not be read.
pub fn collect_samples(pairs: &Vec<ArtifactPair>) -> (r: Result<Vec<SampleInfo>, HelperError>)
    ensures
        match spec_collect(pairs.deep_view()) {
            Ok(samples) => r matches Ok(made) && made.deep_view() == samples,
            Err(name) => r matches Err(HelperError::IOError { path }) && path@ == name,
        },
{
    let mut made: Vec<SampleInfo> = Vec::new();
    let mut i: usize = 0;
    let ghost all = pairs.deep_view();
    assert(made.deep_view() == Seq::<SampleInfoView>::empty());
    while i < pairs.len()
        invariant
            i <= pairs.len(),
            all == pairs.deep_view(),
            spec_collect(all.take(i as int)) == Ok::<Seq<SampleInfoView>, Seq<char>>(
                made.deep_view(),
            ),
        decreases pairs.len() - i,
    {
        proof {
            assert(all.take(i + 1).drop_last() == all.take(i as int));
            lemma_collect_fails_on(all, i + 1);
        }
        match materialize(&pairs[i]) {
            Ok(sample) => {
                let ghost before = made.deep_view();
                made.push(sample);
                assert(made.deep_view() =~= before.push(sample@));
            },
            Err(error) => {
                return Err(error);
            },
        }
        i += 1;
    }
    assert(all.take(pairs.len() as int) == all);
    Ok(made)
}

/// The five field names differ from one another.
proof fn lemma_field_names_differ()
    ensures
        "in_file"@ != "out_file"@,
        "in_file"@ != "timeout_ms"@,
        "in_file"@ != "memory_limit"@,
        "in_file"@ != "points"@,
        "out_file"@ != "timeout_ms"@,
        "out_file"@ != "memory_limit"@,
        "out_file"@ != "points"@,
        "timeout_ms"@ != "memory_limit"@,
        "timeout_ms"@ != "points"@,
        "memory_limit"@ != "points"@,
{
    reveal_strlit("in_file");
    reveal_strlit("out_file");
    reveal_strlit("timeout_ms");
    reveal_strlit("memory_limit");
    reveal_strlit("points");
    assert("out_file"@.len() == 8);
    assert("timeout_ms"@.len() == 10);
    assert("memory_limit"@.len() == 12);
    assert("points"@.len() == 6);
}

/// The entry that records a descriptor stands for that descriptor.
pub proof fn lemma_entry_descriptor(descriptor: SampleDescriptorView)
    ensures
        spec_descriptor(spec_entry(descriptor)) == Some(descriptor),
        spec_canonical(spec_entry(descriptor)),
{
    lemma_field_names_differ();
    reveal_with_fuel(spec_find, 6);
    reveal_with_fuel(spec_canonical, 3);
    let members = spec_entry(descriptor)->Object_0;
}

/// The list of document `doc` after a sample is appended: the old list with
/// the new entry at its end.
pub proof fn lemma_append_extends_list(doc: JsonTree, points: u32, timeout: u32, mem_limit: u32)
    requires
        spec_sample_list(doc) is Some,
    ensures
        spec_sample_list(spec_append(doc, points, timeout, mem_limit)) == Some(
            spec_sample_list(doc)->0.push(
                spec_entry(
                    spec_new_descriptor(spec_sample_list(doc)->0.len(), points, timeout, mem_limit),
                ),
            ),
        ),
{
    let list = spec_sample_list(doc)->0;
    let entry = spec_entry(spec_new_descriptor(list.len(), points, timeout, mem_limit));
    lemma_push_member(doc, list_key(), entry, list_key());
}

/// Indices are dense. In a corpus of `n` samples a new sample takes index
/// `n`: before it is appended, looking up `n` finds nothing; afterwards it
/// finds the new sample under the names made from `n`, the earlier samples
/// are found as before, and looking up `n + 1` finds nothing.
pub proof fn lemma_indices_dense(doc: JsonTree, points: u32, timeout: u32, mem_limit: u32)
    requires
        spec_sample_list(doc) is Some,
    ensures
        ({
            let n = spec_sample_list(doc)->0.len();
            let after = spec_append(doc, points, timeout, mem_limit);
            &&& spec_get(doc, n) == Ok::<Option<SampleDescriptorView>, ()>(None)
            &&& spec_get(after, n) == Ok::<Option<SampleDescriptorView>, ()>(
                Some(spec_new_descriptor(n, points, timeout, mem_limit)),
            )
            &&& spec_get(after, n + 1) == Ok::<Option<SampleDescriptorView>, ()>(None)
            &&& forall|i: nat| i < n ==> spec_get(after, i) == spec_get(doc, i)
        }),
{
    let list = spec_sample_list(doc)->0;
    let n = list.len();
    lemma_append_extends_list(doc, points, timeout, mem_limit);
    lemma_entry_descriptor(spec_new_descriptor(n, points, timeout, mem_limit));
}

/// After `count` appends the list is longer by `count`.
pub proof fn lemma_append_many_grows(
    doc: JsonTree,
    count: nat,
    points: u32,
    timeout: u32,
    mem_limit: u32,
)
    requires
        spec_sample_list(doc) is Some,
    ensures
        spec_sample_list(spec_append_many(doc, count, points, timeout, mem_limit)) is Some,
        spec_sample_list(spec_append_many(doc, count, points, timeout, mem_limit))->0.len()
            == spec_sample_list(doc)->0.len() + count,
    decreases count,
{
    if count > 0 {
        lemma_append_many_grows(doc, (count - 1) as nat, points, timeout, mem_limit);
        lemma_append_extends_list(
            spec_append_many(doc, (count - 1) as nat, points, timeout, mem_limit),
            points,
            timeout,
            mem_limit,
        );
    }
}

/// Appending never leaves a gap. After samples are appended to a corpus of
/// `n` samples, one for each entry of `limits`, the earlier samples are found
/// as before, the new ones are found at the indices from `n` on, each under
/// the names made from its index, and the index after the last finds nothing.
pub proof fn lemma_appended_indices(doc: JsonTree, limits: Seq<(u32, u32, u32)>)
    requires
        spec_sample_list(doc) is Some,
    ensures
        ({
            let n = spec_sample_list(doc)->0.len();
            let after = spec_append_all(doc, limits);
            &&& spec_sample_list(after) is Some
            &&& spec_sample_list(after)->0.len() == n + limits.len()
            &&& forall|i: nat| i < n ==> #[trigger] spec_get(after, i) == spec_get(doc, i)
            &&& forall|i: nat|
                n <= i < n + limits.len() ==> #[trigger] spec_get(after, i) == Ok::<
                    Option<SampleDescriptorView>,
                    (),
                >(
                    Some(
                        spec_new_descriptor(
                            i,
                            limits[i - n].0,
                            limits[i - n].1,
                            limits[i - n].2,
                        ),
                    ),
                )
            &&& spec_get(after, n + limits.len()) == Ok::<Option<SampleDescriptorView>, ()>(None)
        }),
    decreases limits.len(),
{
    if limits.len() > 0 {
        let before = spec_append_all(doc, limits.drop_last());
        let last = limits.last();
        lemma_appended_indices(doc, limits.drop_last());
        lemma_indices_dense(before, last.0, last.1, last.2);
        let n = spec_sample_list(doc)->0.len();
        let after = spec_append_all(doc, limits);
        assert forall|i: nat| n <= i < n + limits.len() implies #[trigger] spec_get(after, i)
            == Ok::<Option<SampleDescriptorView>, ()>(
            Some(spec_new_descriptor(i, limits[i - n].0, limits[i - n].1, limits[i - n].2)),
        ) by {
            if i < n + limits.len() - 1 {
            }
        }
    }
}

/// In a fresh corpus the samples that are appended take the indices from
/// zero on, in the order in which they are appended.
pub proof fn lemma_fresh_corpus_indices(limits: Seq<(u32, u32, u32)>)
    ensures
        ({
            let after = spec_append_all(spec_empty_document(), limits);
            &&& forall|i: nat|
                i < limits.len() ==> #[trigger] spec_get(after, i) == Ok::<
                    Option<SampleDescriptorView>,
                    (),
                >(Some(spec_new_descriptor(i, limits[i as int].0, limits[i as int].1, limits[i as int].2)))
            &&& spec_get(after, limits.len()) == Ok::<Option<SampleDescriptorView>, ()>(None)
        }),
{
    lemma_appended_indices(spec_empty_document(), limits);
}

/// A failure on a prefix of the pairs is the failure on all of them.
pub proof fn lemma_collect_fails_on(pairs: Seq<ArtifactPairView>, n: int)
    requires
        0 <= n <= pairs.len(),
    ensures
        spec_collect(pairs.take(n)) is Err ==> spec_collect(pairs) == spec_collect(pairs.take(n)),
    decreases pairs.len() - n,
{
    if n == pairs.len() {
        assert(pairs.take(n) == pairs);
    } else {
        assert(pairs.take(n + 1).drop_last() == pairs.take(n));
        lemma_collect_fails_on(pairs, n + 1);
    }
}

} // verus!
