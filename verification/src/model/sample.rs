//! Samples, and their discovery from a listing of raw-read files.
//!
//! Paired-end sequencing leaves two files per sample, whose names share the
//! text before the first underscore. That text is the sample's name.

use crate::text::{chars_of, find_char, find_from, is_free_of, lemma_find_char, string_of};
use vstd::hash_set::StringHashSet;
use vstd::prelude::*;
use vstd::string::*;

verus! {

/// Whether the pipeline has been run on a sample.
#[derive(Clone, Copy, Debug, PartialEq, Eq, Structural)]
pub enum Status {
    NotStarted,
    Completed,
}

/// How urgent a sample is.
#[derive(Clone, Copy, Debug, PartialEq, Eq, Structural)]
pub enum Priority {
    Low,
    Normal,
    High,
}

/// A sequencing sample.
#[derive(Clone, Debug, PartialEq, Eq)]
pub struct Sample {
    /// Generated when the sample is made; not stable from one listing to the
    /// next.
    pub id: String,
    /// The id of the sample that this one belongs to; empty at the top level.
    pub parent: String,
    /// The sample's name.
    pub title: String,
    /// Whether the user has selected the sample for the next job.
    pub checked: bool,
    pub status: Status,
    pub priority: Priority,
    pub tags: Vec<String>,
}

/// The model of a `Sample`.
pub struct SampleView {
    pub id: Seq<char>,
    pub parent: Seq<char>,
    pub title: Seq<char>,
    pub checked: bool,
    pub status: Status,
    pub priority: Priority,
    pub tags: Seq<Seq<char>>,
}

impl View for Sample {
    type V = SampleView;

    open spec fn view(&self) -> SampleView {
        SampleView {
            id: self.id@,
            parent: self.parent@,
            title: self.title@,
            checked: self.checked,
            status: self.status,
            priority: self.priority,
            tags: self.tags.deep_view(),
        }
    }
}

impl DeepView for Sample {
    type V = SampleView;

    open spec fn deep_view(&self) -> SampleView {
        self@
    }
}

/// Whether `c` is a digit of lower-case hexadecimal notation.
pub open spec fn is_lower_hex(c: char) -> bool {
    ('0' <= c && c <= '9') || ('a' <= c && c <= 'f')
}

/// Whether `s` is a version-4 UUID in its hyphenated lower-case form: 36
/// characters in groups of 8, 4, 4, 4 and 12 hexadecimal digits, the third
/// group starting with `4` and the fourth with `8`, `9`, `a` or `b`.
pub open spec fn is_random_uuid(s: Seq<char>) -> bool {
    &&& s.len() == 36
    &&& forall|i: int|
        0 <= i < 36 ==> if i == 8 || i == 13 || i == 18 || i == 23 {
            s[i] == '-'
        } else {
            is_lower_hex(#[trigger] s[i])
        }
    &&& s[14] == '4'
    &&& (s[19] == '8' || s[19] == '9' || s[19] == 'a' || s[19] == 'b')
}

/// A fresh random identifier.
///
/// Trusted: `uuid::Uuid::new_v4`, printed through the `Display` of `Uuid`.
/// The value is random, so nothing is claimed of it but the form in which
/// every version-4 UUID is printed. The call panics if the operating system
/// hands out no random bytes.
#[verifier::external_body]
fn fresh_id() -> (id: String)
    ensures
        is_random_uuid(id@),
{
    uuid::Uuid::new_v4().to_string()
}

/// Whether `sample` is as `Sample::new` leaves it: named `title` under
/// `parent`, not selected, not started, and without tags.
pub open spec fn is_new_sample(sample: SampleView, title: Seq<char>, parent: Seq<char>) -> bool {
    &&& is_random_uuid(sample.id)
    &&& sample.parent == parent
    &&& sample.title == title
    &&& !sample.checked
    &&& sample.status == Status::NotStarted
    &&& sample.priority == Priority::Low
    &&& sample.tags == Seq::<Seq<char>>::empty()
}

impl Sample {
    /// A sample named `title` under `parent`, with a fresh id.
    pub fn new(title: String, parent: String) -> (sample: Sample)
        ensures
            is_new_sample(sample@, title@, parent@),
    {
        let tags: Vec<String> = Vec::new();
        assert(tags.deep_view() =~= Seq::<Seq<char>>::empty());
        Sample {
            id: fresh_id(),
            parent,
            title,
            checked: false,
            status: Status::NotStarted,
            priority: Priority::Low,
            tags,
        }
    }

    /// A copy of the sample, id and all.
    pub fn duplicate(&self) -> (copy: Sample)
        ensures
            copy@ == self@,
    {
        let mut tags: Vec<String> = Vec::new();
        let mut n: usize = 0;
        while n < self.tags.len()
            invariant
                n <= self.tags.len(),
                tags.len() == n,
                forall|k: int| 0 <= k < n ==> (#[trigger] tags[k])@ == self.tags[k]@,
            decreases self.tags.len() - n,
        {
            tags.push(self.tags[n].clone());
            n += 1;
        }
        assert(tags.deep_view() =~= self.tags.deep_view());
        Sample {
            id: self.id.clone(),
            parent: self.parent.clone(),
            title: self.title.clone(),
            checked: self.checked,
            status: self.status,
            priority: self.priority,
            tags,
        }
    }

    /// Selects the sample for the next job, or takes it out.
    pub fn set_checked(&mut self, checked: bool)
        ensures
            final(self)@ == (SampleView { checked, ..old(self)@ }),
    {
        self.checked = checked;
    }

    /// Records whether the pipeline has been run on the sample.
    pub fn set_completed(&mut self, completed: bool)
        ensures
            final(self)@ == (SampleView {
                status: if completed {
                    Status::Completed
                } else {
                    Status::NotStarted
                },
                ..old(self)@
            }),
    {
        self.status = if completed {
            Status::Completed
        } else {
            Status::NotStarted
        };
    }
}

/// What the sample list reports after a change.
#[derive(Clone, Debug, PartialEq, Eq)]
pub enum TaskMessage {
    /// The samples of the list with this id are wanted.
    Get(String),
    /// This sample has changed.
    Update(Sample),
}

impl Sample {
    /// Records whether the pipeline has been run on the sample, and reports
    /// the sample as changed.
    pub fn complete(&mut self, completed: bool) -> (message: TaskMessage)
        ensures
            final(self)@ == (SampleView {
                status: if completed {
                    Status::Completed
                } else {
                    Status::NotStarted
                },
                ..old(self)@
            }),
            message matches TaskMessage::Update(changed) && changed@ == final(self)@,
    {
        self.set_completed(completed);
        TaskMessage::Update(self.duplicate())
    }
}

/// The sample that a file belongs to: the text before the first underscore of
/// its name. A name without an underscore belongs to no sample.
pub open spec fn sample_name(file_name: Seq<char>) -> Option<Seq<char>> {
    let at = find_char(file_name, '_');
    if 0 <= at < file_name.len() {
        Some(file_name.subrange(0, at))
    } else {
        None
    }
}

/// The name of a file's sample holds no underscore, and the file's name is
/// that name, an underscore, and what follows. A file that belongs to no
/// sample holds no underscore.
pub proof fn lemma_sample_name(file_name: Seq<char>)
    ensures
        match sample_name(file_name) {
            Some(name) => {
                &&& is_free_of(name, '_')
                &&& name.len() < file_name.len()
                &&& file_name.subrange(0, name.len() as int) == name
                &&& file_name[name.len() as int] == '_'
            },
            None => is_free_of(file_name, '_'),
        },
{
    lemma_find_char(file_name, '_');
    let at = find_char(file_name, '_');
    if at < file_name.len() {
        let name = file_name.subrange(0, at);
        assert forall|i: int| 0 <= i < name.len() implies name[i] != '_' by {
            assert(name[i] == file_name[i]);
        }
    }
}

/// The names of the samples of a listing, each once, in the order in which
/// the listing first shows them.
pub open spec fn discover(listing: Seq<Seq<char>>) -> Seq<Seq<char>>
    decreases listing.len(),
{
    if listing.len() == 0 {
        Seq::empty()
    } else {
        let before = discover(listing.drop_last());
        match sample_name(listing.last()) {
            Some(name) => if before.contains(name) {
                before
            } else {
                before.push(name)
            },
            None => before,
        }
    }
}

/// The set of sample names that the files of a listing carry.
pub open spec fn sample_names(listing: Seq<Seq<char>>) -> Set<Seq<char>> {
    Set::new(|name: Seq<char>| names_some_file(listing, name))
}

/// Whether some file of the listing belongs to the sample `name`.
pub open spec fn names_some_file(listing: Seq<Seq<char>>, name: Seq<char>) -> bool {
    exists|i: int| 0 <= i < listing.len() && #[trigger] sample_name(listing[i]) == Some(name)
}

/// Whether the file at index `i` is the first of the listing that belongs to
/// the sample `name`.
pub open spec fn first_names_at(listing: Seq<Seq<char>>, name: Seq<char>, i: int) -> bool {
    &&& 0 <= i < listing.len()
    &&& sample_name(listing[i]) == Some(name)
    &&& forall|j: int| 0 <= j < i ==> #[trigger] sample_name(listing[j]) != Some(name)
}

/// Whether the sample `name` has a first file in the listing.
pub open spec fn has_first_file(listing: Seq<Seq<char>>, name: Seq<char>) -> bool {
    exists|i: int| first_names_at(listing, name, i)
}

/// The names of a sequence of samples, in order.
pub open spec fn titles(samples: Seq<SampleView>) -> Seq<Seq<char>> {
    Seq::new(samples.len(), |i: int| samples[i].title)
}

/// Whether `samples` is a discovery of `listing`: one new top-level sample
/// for each name of `discover(listing)`, in that order.
pub open spec fn is_discovery(listing: Seq<Seq<char>>, samples: Seq<SampleView>) -> bool {
    &&& titles(samples) == discover(listing)
    &&& forall|k: int|
        0 <= k < samples.len() ==> is_new_sample(
            #[trigger] samples[k],
            discover(listing)[k],
            Seq::<char>::empty(),
        )
}

/// A name that some file of the listing carries has a first file.
proof fn lemma_first_file(listing: Seq<Seq<char>>, name: Seq<char>)
    requires
        names_some_file(listing, name),
    ensures
        has_first_file(listing, name),
    decreases listing.len(),
{
    let w = choose|i: int|
        0 <= i < listing.len() && #[trigger] sample_name(listing[i]) == Some(name);
    let shorter = listing.drop_last();
    if exists|i: int| 0 <= i < shorter.len() && #[trigger] sample_name(shorter[i]) == Some(name) {
        assert(names_some_file(shorter, name));
        lemma_first_file(shorter, name);
        let f = choose|i: int| first_names_at(shorter, name, i);
        assert(listing[f] == shorter[f]);
        assert forall|j: int| 0 <= j < f implies #[trigger] sample_name(listing[j]) != Some(
            name,
        ) by {
            assert(listing[j] == shorter[j]);
        }
        assert(first_names_at(listing, name, f));
    } else {
        let last = listing.len() - 1;
        assert(w == last) by {
            if w < last {
                assert(shorter[w] == listing[w]);
            }
        }
        assert forall|j: int| 0 <= j < last implies #[trigger] sample_name(listing[j]) != Some(
            name,
        ) by {
            assert(shorter[j] == listing[j]);
        }
        assert(first_names_at(listing, name, last));
    }
}

/// Discovery yields every sample name of the listing exactly once, in the
/// order of the names' first files. Hence it yields as many names as the
/// files that hold an underscore have distinct texts before their first
/// underscore, and files without an underscore add nothing.
pub proof fn lemma_discover(listing: Seq<Seq<char>>)
    ensures
        discover(listing).no_duplicates(),
        discover(listing).to_set() == sample_names(listing),
        discover(listing).len() == sample_names(listing).len(),
        forall|k: int|
            0 <= k < discover(listing).len() ==> has_first_file(
                listing,
                #[trigger] discover(listing)[k],
            ),
        forall|a: int, b: int, i: int, j: int|
            0 <= a < b < discover(listing).len() && #[trigger] first_names_at(
                listing,
                discover(listing)[a],
                i,
            ) && #[trigger] first_names_at(listing, discover(listing)[b], j) ==> i < j,
    decreases listing.len(),
{
    let found = discover(listing);
    if listing.len() == 0 {
        assert(found.to_set() =~= sample_names(listing));
        found.unique_seq_to_set();
    } else {
        let shorter = listing.drop_last();
        let before = discover(shorter);
        let last = listing.len() - 1;
        lemma_discover(shorter);
        assert forall|i: int| 0 <= i < shorter.len() implies shorter[i] == listing[i] by {}
        // A name that the shorter listing carries keeps its first file.
        assert forall|name: Seq<char>, i: int|
            names_some_file(shorter, name) && first_names_at(listing, name, i) implies i < last
            && first_names_at(shorter, name, i) by {
            let w = choose|w: int|
                0 <= w < shorter.len() && #[trigger] sample_name(shorter[w]) == Some(name);
            assert(shorter[w] == listing[w]);
            if i >= last {
                assert(sample_name(listing[w]) != Some(name));
            }
            assert(shorter[i] == listing[i]);
            assert forall|j: int| 0 <= j < i implies #[trigger] sample_name(shorter[j]) != Some(
                name,
            ) by {
                assert(shorter[j] == listing[j]);
            }
        }
        assert forall|name: Seq<char>| before.contains(name) implies names_some_file(
            shorter,
            name,
        ) by {
            assert(before.to_set().contains(name));
        }
        assert forall|name: Seq<char>| names_some_file(shorter, name) implies before.contains(
            name,
        ) by {
            assert(sample_names(shorter).contains(name));
            assert(before.to_set().contains(name));
        }
        assert forall|name: Seq<char>| names_some_file(shorter, name) implies names_some_file(
            listing,
            name,
        ) by {
            let w = choose|w: int|
                0 <= w < shorter.len() && #[trigger] sample_name(shorter[w]) == Some(name);
            assert(listing[w] == shorter[w]);
        }
        assert forall|name: Seq<char>| names_some_file(listing, name) implies names_some_file(
            shorter,
            name,
        ) || sample_name(listing[last]) == Some(name) by {
            let w = choose|w: int|
                0 <= w < listing.len() && #[trigger] sample_name(listing[w]) == Some(name);
            if w < last {
                assert(shorter[w] == listing[w]);
            }
        }
        let added = sample_name(listing.last()) is Some && !before.contains(
            sample_name(listing.last())->0,
        );
        if added {
            let name = sample_name(listing.last())->0;
            assert(found == before.push(name));
            assert(names_some_file(listing, name));
            assert forall|i: int| first_names_at(listing, name, i) implies i == last by {
                if i < last {
                    assert(shorter[i] == listing[i]);
                    assert(names_some_file(shorter, name));
                }
            }
        } else {
            assert(found == before);
        }
        assert forall|name: Seq<char>| found.contains(name) <==> names_some_file(
            listing,
            name,
        ) by {
            if added {
                let fresh = sample_name(listing.last())->0;
                if found.contains(name) {
                    let k = choose|k: int| 0 <= k < found.len() && found[k] == name;
                    if k < before.len() {
                        assert(before[k] == name);
                        assert(before.contains(name));
                    }
                }
                if names_some_file(listing, name) {
                    if name == fresh {
                        assert(found[before.len() as int] == name);
                    } else {
                        assert(before.contains(name));
                        let k = choose|k: int| 0 <= k < before.len() && before[k] == name;
                        assert(found[k] == name);
                    }
                }
            } else {
                if names_some_file(listing, name) && !names_some_file(shorter, name) {
                    assert(sample_name(listing[last]) == Some(name));
                    assert(before.contains(name));
                }
            }
        }
        assert(found.to_set() =~= sample_names(listing)) by {
            assert forall|name: Seq<char>| found.to_set().contains(name) == sample_names(
                listing,
            ).contains(name) by {}
        }
        found.unique_seq_to_set();
        assert forall|k: int| 0 <= k < found.len() implies has_first_file(
            listing,
            #[trigger] found[k],
        ) by {
            assert(found.contains(found[k]));
            lemma_first_file(listing, found[k]);
        }
        assert forall|a: int, b: int, i: int, j: int|
            0 <= a < b < found.len() && #[trigger] first_names_at(listing, found[a], i)
                && #[trigger] first_names_at(listing, found[b], j) implies i < j by {
            assert(before[a] == found[a]);
            assert(before.contains(found[a]));
            assert(names_some_file(shorter, found[a]));
            if b < before.len() {
                assert(before[b] == found[b]);
                assert(before.contains(found[b]));
                assert(names_some_file(shorter, found[b]));
                assert(first_names_at(shorter, before[a], i));
                assert(first_names_at(shorter, before[b], j));
            } else {
                assert(j == last);
            }
        }
    }
}

/// Two discoveries of one listing agree on the names and on their order,
/// whatever ids they generated.
pub proof fn lemma_discovery_repeats(
    listing: Seq<Seq<char>>,
    first: Seq<SampleView>,
    second: Seq<SampleView>,
)
    requires
        is_discovery(listing, first),
        is_discovery(listing, second),
    ensures
        first.len() == second.len(),
        titles(first) == titles(second),
        forall|k: int| 0 <= k < first.len() ==> (#[trigger] first[k]).title == second[k].title,
{
    assert(titles(first).len() == first.len());
    assert(titles(second).len() == second.len());
    assert forall|k: int| 0 <= k < first.len() implies (#[trigger] first[k]).title
        == second[k].title by {
        assert(titles(first)[k] == first[k].title);
        assert(titles(second)[k] == second[k].title);
    }
}

/// Turns a listing of raw-read files into samples: one new, unselected
/// top-level sample for each sample name, in the order in which the listing
/// first shows the names. Files without an underscore are passed over.
pub fn create_sample_tasks(reads: Vec<String>) -> (tasks: Vec<Sample>)
    ensures
        is_discovery(reads.deep_view(), tasks.deep_view()),
        tasks.len() == sample_names(reads.deep_view()).len(),
        titles(tasks.deep_view()).no_duplicates(),
        forall|a: int, b: int, i: int, j: int|
            0 <= a < b < tasks.len() && #[trigger] first_names_at(
                reads.deep_view(),
                tasks[a]@.title,
                i,
            ) && #[trigger] first_names_at(reads.deep_view(), tasks[b]@.title, j) ==> i < j,
{
    let ghost listing = reads.deep_view();
    let mut tasks: Vec<Sample> = Vec::new();
    let mut seen = StringHashSet::new();
    let mut n: usize = 0;
    proof {
        assert(listing.take(0) =~= Seq::<Seq<char>>::empty());
        assert(titles(tasks.deep_view()) =~= discover(listing.take(0)));
        assert(seen@ =~= discover(listing.take(0)).to_set());
    }
    while n < reads.len()
        invariant
            n <= reads.len(),
            listing == reads.deep_view(),
            is_discovery(listing.take(n as int), tasks.deep_view()),
            seen@ == discover(listing.take(n as int)).to_set(),
        decreases reads.len() - n,
    {
        let ghost before = discover(listing.take(n as int));
        let ghost old_tasks = tasks.deep_view();
        let chars = chars_of(reads[n].as_str());
        let at = find_from(&chars, 0, '_');
        proof {
            assert(chars@.subrange(0, chars@.len() as int) =~= chars@);
            assert(listing[n as int] == reads[n as int]@);
            assert(listing.take(n + 1).drop_last() =~= listing.take(n as int));
            assert(listing.take(n + 1).last() == listing[n as int]);
        }
        if at < chars.len() {
            let name = string_of(&chars, 0, at);
            assert(sample_name(listing[n as int]) == Some(name@));
            if seen.insert(name.clone()) {
                let sample = Sample::new(name, String::new());
                tasks.push(sample);
                proof {
                    assert(!before.contains(name@)) by {
                        if before.contains(name@) {
                            assert(before.to_set().contains(name@));
                        }
                    }
                    let found = discover(listing.take(n + 1));
                    assert(found == before.push(name@));
                    assert(tasks.deep_view() =~= old_tasks.push(sample@));
                    assert(titles(tasks.deep_view()) =~= found);
                    assert(seen@ =~= found.to_set()) by {
                        assert forall|x: Seq<char>| seen@.contains(x) == found.to_set().contains(
                            x,
                        ) by {
                            if found.contains(x) {
                                let k = choose|k: int| 0 <= k < found.len() && found[k] == x;
                                if k < before.len() {
                                    assert(before[k] == x);
                                    assert(before.contains(x));
                                }
                            }
                            if before.contains(x) {
                                let k = choose|k: int| 0 <= k < before.len() && before[k] == x;
                                assert(found[k] == x);
                            }
                            if x == name@ {
                                assert(found[before.len() as int] == x);
                            }
                        }
                    }
                }
            } else {
                proof {
                    assert(before.to_set().contains(name@));
                    assert(before.contains(name@));
                    assert(seen@ =~= before.to_set());
                }
            }
        }
        n += 1;
    }
    proof {
        assert(listing.take(n as int) =~= listing);
        lemma_discover(listing);
        let found = discover(listing);
        assert forall|k: int| 0 <= k < tasks.len() implies (#[trigger] tasks[k])@.title
            == found[k] by {
            assert(tasks.deep_view()[k] == tasks[k]@);
            assert(titles(tasks.deep_view())[k] == tasks.deep_view()[k].title);
        }
    }
    tasks
}

} // verus!
