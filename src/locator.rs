use vstd::prelude::*;
use vstd::string::*;

use crate::text::{push_text, texts};

verus! {

/// A filesystem path as its root (`/`, a drive prefix, or empty for a relative
/// path) and its components below that root.
#[derive(Clone, Debug, PartialEq, Eq)]
pub struct FsPath {
    pub root: String,
    pub parts: Vec<String>,
}

/// Where the encoder binary is to be found.
#[derive(Clone, Debug, PartialEq, Eq)]
pub enum EncoderLocation {
    /// The path named by the override variable.
    Override(String),
    /// A file found by searching the bundled and executable-relative directories.
    File(FsPath),
    /// A bare command name, resolved through the search path when run.
    CommandName(String),
}

/// The mathematical form of an encoder location.
pub enum LocationModel {
    Override(Seq<char>),
    File(Seq<char>, Seq<Seq<char>>),
    CommandName(Seq<char>),
}

impl EncoderLocation {
    /// This location with its strings as character sequences.
    pub open spec fn model(self) -> LocationModel {
        match self {
            EncoderLocation::Override(p) => LocationModel::Override(p@),
            EncoderLocation::File(f) => LocationModel::File(f.root@, texts(f.parts@)),
            EncoderLocation::CommandName(n) => LocationModel::CommandName(n@),
        }
    }

    /// A copy of this location.
    pub fn duplicate(&self) -> (r: EncoderLocation)
        ensures
            r.model() == self.model(),
    {
        match self {
            EncoderLocation::Override(p) => {
                let c = String::from_str(p.as_str());
                assert(c@ == p@);
                EncoderLocation::Override(c)
            },
            EncoderLocation::File(f) => {
                let root = String::from_str(f.root.as_str());
                let parts = copy_prefix(&f.parts, f.parts.len());
                assert(texts(f.parts@).subrange(0, f.parts@.len() as int) =~= texts(f.parts@));
                EncoderLocation::File(FsPath { root, parts })
            },
            EncoderLocation::CommandName(n) => {
                let c = String::from_str(n.as_str());
                assert(c@ == n@);
                EncoderLocation::CommandName(c)
            },
        }
    }
}

/// The models of a list of locations.
pub open spec fn models(v: Seq<EncoderLocation>) -> Seq<LocationModel> {
    v.map_values(|l: EncoderLocation| l.model())
}

/// The command name used when no binary is found.
pub open spec fn fallback_name() -> Seq<char> {
    "ffmpeg"@
}

/// The files named after the encoder in directory `dir` under `root`, in the
/// order they are tried.
pub open spec fn files_in(root: Seq<char>, dir: Seq<Seq<char>>) -> Seq<LocationModel> {
    seq![
        LocationModel::File(root, dir.push("ffmpeg.exe"@)),
        LocationModel::File(root, dir.push("ffmpeg-x86_64-pc-windows-msvc.exe"@)),
    ]
}

/// The encoder files in the `bin` subdirectory of `dir`.
pub open spec fn bin_files(root: Seq<char>, dir: Seq<Seq<char>>) -> Seq<LocationModel> {
    files_in(root, dir.push("bin"@))
}

/// The `bin` candidates of `dir` and of its ancestors, `levels` directories in
/// all, stopping early at the root.
pub open spec fn ancestor_bin_files(root: Seq<char>, dir: Seq<Seq<char>>, levels: nat) -> Seq<
    LocationModel,
>
    decreases levels,
{
    if levels == 0 {
        Seq::empty()
    } else if dir.len() == 0 {
        bin_files(root, dir)
    } else {
        bin_files(root, dir) + ancestor_bin_files(root, dir.drop_last(), (levels - 1) as nat)
    }
}

/// The directory of the executable: its parent, or `.` where it has none.
pub open spec fn exe_dir(exe: FsPath) -> (Seq<char>, Seq<Seq<char>>) {
    if exe.parts.len() > 0 {
        (exe.root@, texts(exe.parts@).drop_last())
    } else {
        (""@, seq!["."@])
    }
}

/// Every candidate location of the encoder, in the order they are tried: the
/// override path, the bundled `bin` directory, beside the executable, and the
/// `bin` directories of the executable's directory and up to four ancestors.
pub open spec fn candidate_list(
    env_override: Option<Seq<char>>,
    resource_dir: Option<FsPath>,
    exe: Option<FsPath>,
) -> Seq<LocationModel> {
    let o = match env_override {
        Some(p) => seq![LocationModel::Override(p)],
        None => Seq::empty(),
    };
    let r = match resource_dir {
        Some(d) => bin_files(d.root@, texts(d.parts@)),
        None => Seq::empty(),
    };
    let e = match exe {
        Some(x) => files_in(exe_dir(x).0, exe_dir(x).1) + ancestor_bin_files(
            exe_dir(x).0,
            exe_dir(x).1,
            5,
        ),
        None => Seq::empty(),
    };
    o + r + e
}

/// The first candidate that exists, or the bare command name.
pub open spec fn selected(cands: Seq<LocationModel>, exists: Seq<bool>) -> LocationModel
    decreases cands.len(),
{
    if cands.len() == 0 || exists.len() == 0 {
        LocationModel::CommandName(fallback_name())
    } else if exists[0] {
        cands[0]
    } else {
        selected(cands.drop_first(), exists.drop_first())
    }
}

/// A copy of the first `n` strings of `v`.
fn copy_prefix(v: &Vec<String>, n: usize) -> (r: Vec<String>)
    requires
        n <= v.len(),
    ensures
        texts(r@) == texts(v@).subrange(0, n as int),
{
    let mut r: Vec<String> = Vec::new();
    let mut i: usize = 0;
    while i < n
        invariant
            n <= v.len(),
            i <= n,
            texts(r@) == texts(v@).subrange(0, i as int),
        decreases n - i,
    {
        push_text(&mut r, v[i].as_str());
        assert(texts(v@).subrange(0, i + 1) =~= texts(v@).subrange(0, i as int).push(v@[i as int]@));
        i = i + 1;
    }
    r
}

/// Appends the encoder files of `dir` (or of its `bin` subdirectory) to `cands`.
fn push_files(cands: &mut Vec<EncoderLocation>, root: &str, dir: &Vec<String>, in_bin: bool)
    ensures
        models(final(cands)@) == models(old(cands)@) + files_in(
            root@,
            if in_bin {
                texts(dir@).push("bin"@)
            } else {
                texts(dir@)
            },
        ),
{
    let ghost start = models(cands@);
    let ghost d = if in_bin {
        texts(dir@).push("bin"@)
    } else {
        texts(dir@)
    };
    let mut first = copy_prefix(dir, dir.len());
    assert(texts(dir@).subrange(0, dir@.len() as int) =~= texts(dir@));
    if in_bin {
        push_text(&mut first, "bin");
    }
    assert(texts(first@) == d);
    let mut second = copy_prefix(&first, first.len());
    assert(texts(first@).subrange(0, first@.len() as int) =~= texts(first@));
    push_text(&mut first, "ffmpeg.exe");
    push_text(&mut second, "ffmpeg-x86_64-pc-windows-msvc.exe");
    let a = EncoderLocation::File(FsPath { root: String::from_str(root), parts: first });
    let b = EncoderLocation::File(FsPath { root: String::from_str(root), parts: second });
    assert(a.model() == LocationModel::File(root@, d.push("ffmpeg.exe"@)));
    assert(b.model() == LocationModel::File(root@, d.push("ffmpeg-x86_64-pc-windows-msvc.exe"@)));
    cands.push(a);
    assert(models(cands@) =~= start.push(a.model()));
    cands.push(b);
    assert(models(cands@) =~= start.push(a.model()).push(b.model()));
    assert(models(cands@) =~= start + files_in(root@, d));
}

/// Lists every candidate location of the encoder, in the order they are to be
/// tried; `exe_path` is the running executable's own path.
pub fn encoder_candidates(
    env_override: Option<String>,
    resource_dir: Option<FsPath>,
    exe_path: Option<FsPath>,
) -> (r: Vec<EncoderLocation>)
    ensures
        models(r@) == candidate_list(
            match env_override {
                Some(p) => Some(p@),
                None => None,
            },
            resource_dir,
            exe_path,
        ),
{
    let mut cands: Vec<EncoderLocation> = Vec::new();
    let ghost o: Seq<LocationModel> = Seq::empty();
    match env_override {
        Some(p) => {
            cands.push(EncoderLocation::Override(p));
            proof {
                o = seq![LocationModel::Override(p@)];
            }
        },
        None => {},
    }
    assert(models(cands@) =~= o);
    match &resource_dir {
        Some(d) => {
            push_files(&mut cands, d.root.as_str(), &d.parts, true);
        },
        None => {},
    }
    let ghost before_exe = models(cands@);
    match &exe_path {
        Some(x) => {
            let n = x.parts.len();
            let (root, dir) = if n > 0 {
                let root = String::from_str(x.root.as_str());
                let dir = copy_prefix(&x.parts, n - 1);
                assert(texts(x.parts@).subrange(0, n - 1) =~= texts(x.parts@).drop_last());
                (root, dir)
            } else {
                let mut d: Vec<String> = Vec::new();
                push_text(&mut d, ".");
                proof {
                    reveal_strlit("");
                }
                (String::from_str(""), d)
            };
            assert(root@ == exe_dir(*x).0);
            assert(texts(dir@) =~= exe_dir(*x).1);
            push_files(&mut cands, root.as_str(), &dir, false);
            let ghost target = models(cands@) + ancestor_bin_files(root@, texts(dir@), 5);
            let mut cur = dir;
            let mut level: usize = 0;
            while level < 5
                invariant
                    level <= 5,
                    models(cands@) + ancestor_bin_files(root@, texts(cur@), (5 - level) as nat)
                        == target,
                decreases 5 - level,
            {
                let ghost before = models(cands@);
                let ghost rest = ancestor_bin_files(root@, texts(cur@), (5 - level) as nat);
                push_files(&mut cands, root.as_str(), &cur, true);
                if cur.len() == 0 {
                    assert(models(cands@) =~= target);
                    assert(ancestor_bin_files(root@, texts(cur@), 0) =~= Seq::empty());
                    level = 5;
                    assert(models(cands@) + ancestor_bin_files(root@, texts(cur@), 0) =~= target);
                } else {
                    let parent = copy_prefix(&cur, cur.len() - 1);
                    assert(texts(cur@).subrange(0, cur@.len() - 1) =~= texts(cur@).drop_last());
                    assert(rest =~= bin_files(root@, texts(cur@)) + ancestor_bin_files(
                        root@,
                        texts(parent@),
                        (5 - level - 1) as nat,
                    ));
                    cur = parent;
                    level = level + 1;
                    assert(models(cands@) + ancestor_bin_files(root@, texts(cur@), (5 - level) as nat)
                        =~= target);
                }
            }
            assert(ancestor_bin_files(root@, texts(cur@), 0) =~= Seq::empty());
            assert(models(cands@) =~= target);
        },
        None => {},
    }
    assert(models(cands@) =~= candidate_list(
        match env_override {
            Some(p) => Some(p@),
            None => None,
        },
        resource_dir,
        exe_path,
    ));
    cands
}

/// Picks the first candidate whose file exists (`exists[i]` tells whether
/// `cands[i]` does), or the bare command name when none does; never fails.
pub fn select_encoder(cands: &Vec<EncoderLocation>, exists: &Vec<bool>) -> (r: EncoderLocation)
    requires
        cands.len() == exists.len(),
    ensures
        r.model() == selected(models(cands@), exists@),
{
    let mut i: usize = 0;
    assert(models(cands@).skip(0) =~= models(cands@));
    assert(exists@.skip(0) =~= exists@);
    while i < cands.len()
        invariant
            cands.len() == exists.len(),
            i <= cands.len(),
            selected(models(cands@), exists@) == selected(
                models(cands@).skip(i as int),
                exists@.skip(i as int),
            ),
        decreases cands.len() - i,
    {
        assert(models(cands@).skip(i as int)[0] == cands@[i as int].model());
        if exists[i] {
            return cands[i].duplicate();
        }
        assert(models(cands@).skip(i as int).drop_first() =~= models(cands@).skip(i + 1));
        assert(exists@.skip(i as int).drop_first() =~= exists@.skip(i + 1));
        i = i + 1;
    }
    assert(models(cands@).skip(i as int).len() == 0);
    EncoderLocation::CommandName(String::from_str("ffmpeg"))
}

/// An override path that exists is chosen before every other candidate, even
/// where a bundled binary exists too.
pub proof fn lemma_existing_override_wins(
    env_override: Seq<char>,
    resource_dir: Option<FsPath>,
    exe: Option<FsPath>,
    exists: Seq<bool>,
)
    requires
        exists.len() == candidate_list(Some(env_override), resource_dir, exe).len(),
        exists[0],
    ensures
        selected(candidate_list(Some(env_override), resource_dir, exe), exists)
            == LocationModel::Override(env_override),
{
    let c = candidate_list(Some(env_override), resource_dir, exe);
    assert(c[0] == LocationModel::Override(env_override));
}

/// Where no candidate exists, the bare command name is chosen: the search
/// never fails.
pub proof fn lemma_nothing_found_falls_back(cands: Seq<LocationModel>, exists: Seq<bool>)
    requires
        cands.len() == exists.len(),
        forall|i: int| 0 <= i < exists.len() ==> !exists[i],
    ensures
        selected(cands, exists) == LocationModel::CommandName(fallback_name()),
    decreases cands.len(),
{
    if cands.len() > 0 {
        assert(!exists[0]);
        let e = exists.drop_first();
        assert forall|i: int| 0 <= i < e.len() implies !e[i] by {
            assert(e[i] == exists[i + 1]);
        }
        lemma_nothing_found_falls_back(cands.drop_first(), e);
    }
}

} // verus!
