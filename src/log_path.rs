use vstd::prelude::*;

verus! {

/// A test's position in a hierarchical suite: suite, group, ..., test case.
/// The last segment names the log file; the others name nested directories.
pub struct TestPath {
    segments: Vec<String>,
}

/// Views of a sequence of strings as a sequence of character sequences.
pub open spec fn strings_view(v: Seq<String>) -> Seq<Seq<char>> {
    Seq::new(v.len(), |i: int| v[i]@)
}

/// `base/s0/s1/.../sn`: each segment appended under the previous directory.
pub open spec fn join_under(base: Seq<char>, segs: Seq<Seq<char>>) -> Seq<char>
    decreases segs.len(),
{
    if segs.len() == 0 {
        base
    } else {
        join_under(base, segs.drop_last()) + seq!['/'] + segs.last()
    }
}

/// The directory that holds a test's log file: the non-leaf segments under `base`.
pub open spec fn log_dir_of(base: Seq<char>, segs: Seq<Seq<char>>) -> Seq<char> {
    join_under(base, segs.drop_last())
}

/// The log file of a test: `<leaf>.log` inside its directory.
pub open spec fn log_file_of(base: Seq<char>, segs: Seq<Seq<char>>) -> Seq<char> {
    log_dir_of(base, segs) + seq!['/'] + segs.last() + seq!['.', 'l', 'o', 'g']
}

impl View for TestPath {
    type V = Seq<Seq<char>>;

    closed spec fn view(&self) -> Seq<Seq<char>> {
        strings_view(self.segments@)
    }
}

impl TestPath {
    /// A test path is never empty.
    pub open spec fn wf(&self) -> bool {
        self@.len() > 0
    }

    /// Builds a test path from its segments; `None` when there are none.
    pub fn new(segments: Vec<String>) -> (r: Option<TestPath>)
        ensures
            segments@.len() == 0 <==> r is None,
            r matches Some(p) ==> p.wf() && p@ == strings_view(segments@),
    {
        if segments.len() == 0 {
            None
        } else {
            Some(TestPath { segments })
        }
    }

    /// The segments, in order.
    pub fn segments(&self) -> (r: &Vec<String>)
        ensures
            strings_view(r@) == self@,
    {
        &self.segments
    }

    /// The leaf segment: the test's own name.
    pub fn leaf(&self) -> (r: &String)
        requires
            self.wf(),
        ensures
            r@ == self@.last(),
    {
        &self.segments[self.segments.len() - 1]
    }
}

/// Where a test's log goes: the directory to create and the file inside it.
pub struct LogFileLocation {
    pub dir: String,
    pub file: String,
}

/// Maps a test path to its log location under `base_dir`: the non-leaf
/// segments become nested directories and the leaf becomes `<leaf>.log`.
pub fn log_file_location(base_dir: &str, test_path: &TestPath) -> (r: LogFileLocation)
    requires
        test_path.wf(),
    ensures
        r.dir@ == log_dir_of(base_dir@, test_path@),
        r.file@ == log_file_of(base_dir@, test_path@),
{
    let segs = &test_path.segments;
    let n = segs.len();
    let ghost gsegs = test_path@;
    let mut dir = String::from_str(base_dir);
    let mut i: usize = 0;
    while i + 1 < n
        invariant
            n == segs@.len(),
            n > 0,
            gsegs == strings_view(segs@),
            i < n,
            dir@ == join_under(base_dir@, gsegs.subrange(0, i as int)),
        decreases n - i,
    {
        proof {
            reveal_strlit("/");
            let next = gsegs.subrange(0, i + 1);
            assert(next.drop_last() =~= gsegs.subrange(0, i as int));
        }
        dir.append("/");
        dir.append(segs[i].as_str());
        i = i + 1;
    }
    proof {
        assert(gsegs.subrange(0, i as int) =~= gsegs.drop_last());
        reveal_strlit("/");
        reveal_strlit(".log");
    }
    let mut file = dir.clone();
    file.append("/");
    file.append(segs[n - 1].as_str());
    file.append(".log");
    proof {
        assert(file@ =~= log_file_of(base_dir@, gsegs));
    }
    LogFileLocation { dir, file }
}

/// The log file is a direct child of the log directory: the path is the
/// non-leaf segments joined under the base, then `<leaf>.log`, and the
/// directory path is a prefix of the file path.
pub proof fn lemma_log_file_is_child_of_log_dir(base: Seq<char>, segs: Seq<Seq<char>>)
    requires
        segs.len() > 0,
    ensures
        log_file_of(base, segs) == join_under(
            base,
            segs.drop_last().push(segs.last() + seq!['.', 'l', 'o', 'g']),
        ),
        log_file_of(base, segs).subrange(0, log_dir_of(base, segs).len() as int) == log_dir_of(
            base,
            segs,
        ),
        log_file_of(base, segs).len() == log_dir_of(base, segs).len() + 1 + segs.last().len() + 4,
{
    let leaf_file = segs.last() + seq!['.', 'l', 'o', 'g'];
    let with_file = segs.drop_last().push(leaf_file);
    assert(with_file.drop_last() =~= segs.drop_last());
    assert(log_file_of(base, segs) =~= join_under(base, with_file));
    assert(log_file_of(base, segs).subrange(0, log_dir_of(base, segs).len() as int)
        =~= log_dir_of(base, segs));
}

} // verus!
