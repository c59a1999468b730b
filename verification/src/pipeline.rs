//! Planner for the three-pass schema-compiler pipeline.
//!
//! The pipeline turns a set of schema files into managed message types
//! (structural pass), service-stub bridging glue emitted by an external
//! plugin (bridging pass), and native sources compiled into one static unit
//! (native pass). The passes are strictly sequential and share one output
//! directory: the native pass reads the files the earlier passes wrote
//! there, not the original inputs. Everything that can be decided before
//! any external process is spawned is decided here: locating the plugin on
//! the search path (first match wins), the full command line of each
//! compiler invocation, the native source names derived from each schema
//! file, and the fixed linkage set. Any failing pass aborts the whole
//! pipeline with a descriptive error; nothing is cached between runs, so
//! the plan is a function of the configuration alone.

use vstd::prelude::*;
use vstd::string::StrSliceExecFns;
use vstd::string::StringExecFns;

verus! {

/// Inputs of one pipeline invocation: ordered schema files, ordered
/// include-search directories, and the single shared output directory.
pub struct PipelineConfig {
    /// Paths of the schema files to compile, in order.
    pub protos: Vec<String>,
    /// Directories searched for imports, in order; the first match wins.
    pub includes: Vec<String>,
    /// The single output directory shared by all passes.
    pub out_dir: String,
}

/// Why a pipeline invocation was aborted.
#[derive(Debug, PartialEq, Eq)]
pub enum BuildError {
    /// The external plugin executable is absent from the search path.
    PluginNotFound,
    /// A schema path has no file name to derive output names from.
    InvalidFileName,
    /// A spawned external process failed; carries its diagnostic text.
    ProcessFailed(String),
}

/// The views of a list of strings.
pub open spec fn views_of(v: Seq<String>) -> Seq<Seq<char>> {
    v.map_values(|s: String| s@)
}

/// A directory path joined with a file name.
pub open spec fn spec_join_path(dir: Seq<char>, file: Seq<char>) -> Seq<char> {
    dir + seq!['/'] + file
}

/// Index of the first set position, if any.
pub open spec fn first_present(present: Seq<bool>) -> Option<int>
    decreases present.len(),
{
    if present.len() == 0 {
        None
    } else if present.first() {
        Some(0)
    } else {
        match first_present(present.drop_first()) {
            None => None,
            Some(i) => Some(i + 1),
        }
    }
}

/// Where an executable is found on a search path: the first directory
/// that holds a file of its name, joined with that name.
pub open spec fn spec_find_in_path(dirs: Seq<Seq<char>>, exe: Seq<char>, present: Seq<bool>) ->
    Option<Seq<char>> {
    match first_present(present) {
        None => None,
        Some(i) => Some(spec_join_path(dirs[i], exe)),
    }
}

proof fn lemma_first_present_at(present: Seq<bool>, i: int)
    requires
        0 <= i < present.len(),
        present[i],
        forall|j: int| 0 <= j < i ==> !present[j],
    ensures
        first_present(present) == Some(i),
    decreases i,
{
    if i > 0 {
        lemma_first_present_at(present.drop_first(), i - 1);
    }
}

proof fn lemma_first_present_none(present: Seq<bool>)
    requires
        forall|j: int| 0 <= j < present.len() ==> !present[j],
    ensures
        first_present(present) is None,
    decreases present.len(),
{
    if present.len() > 0 {
        lemma_first_present_none(present.drop_first());
    }
}

/// Join a directory path and a file name with a separator.
pub fn join_path(dir: &String, file: &String) -> (r: String)
    ensures
        r@ == spec_join_path(dir@, file@),
{
    let mut s = dir.clone();
    s.append("/");
    s.append(file.as_str());
    proof {
        reveal_strlit("/");
        assert(s@ =~= spec_join_path(dir@, file@));
    }
    s
}

/// Look an executable up on a search path, one flag per directory saying
/// whether that directory holds a file of the executable's name. The
/// first directory that does wins; if none does, the executable is absent.
pub fn find_in_path(dirs: &Vec<String>, exe: &String, present: &Vec<bool>) -> (r: Option<String>)
    requires
        dirs@.len() == present@.len(),
    ensures
        match r {
            Some(p) => spec_find_in_path(views_of(dirs@), exe@, present@) == Some(p@),
            None => spec_find_in_path(views_of(dirs@), exe@, present@) is None,
        },
{
    let n = dirs.len();
    let mut i: usize = 0;
    while i < n
        invariant
            n == dirs@.len(),
            n == present@.len(),
            i <= n,
            forall|j: int| 0 <= j < i ==> !present@[j],
        decreases n - i,
    {
        if present[i] {
            let p = join_path(&dirs[i], exe);
            proof {
                lemma_first_present_at(present@, i as int);
                assert(views_of(dirs@)[i as int] == dirs@[i as int]@);
            }
            return Some(p);
        }
        i = i + 1;
    }
    proof {
        lemma_first_present_none(present@);
    }
    None
}

/// The file-name part of a path: the suffix after the last separator.
/// Empty for an empty path and for a path that ends in a separator.
pub open spec fn spec_file_name(path: Seq<char>) -> Seq<char>
    decreases path.len(),
{
    if path.len() == 0 {
        Seq::empty()
    } else if path.last() == '/' {
        Seq::empty()
    } else {
        spec_file_name(path.drop_last()).push(path.last())
    }
}

proof fn lemma_file_name_suffix(path: Seq<char>, k: int)
    requires
        0 <= k <= path.len(),
        forall|j: int| k <= j < path.len() ==> path[j] != '/',
        k > 0 ==> path[k - 1] == '/',
    ensures
        spec_file_name(path) == path.skip(k),
    decreases path.len() - k,
{
    if k == path.len() {
        assert(path.skip(k) =~= Seq::<char>::empty());
    } else {
        lemma_file_name_suffix(path.drop_last(), k);
        assert(path.last() != '/');
        assert(spec_file_name(path) == spec_file_name(path.drop_last()).push(path.last()));
        assert(path.drop_last().skip(k).push(path.last()) =~= path.skip(k));
    }
}

/// The stem of a file name: everything before the last dot, or the whole
/// name if it has no dot.
pub open spec fn spec_stem(name: Seq<char>) -> Seq<char>
    decreases name.len(),
{
    if !name.contains('.') {
        name
    } else if name.last() == '.' {
        name.drop_last()
    } else {
        spec_stem(name.drop_last())
    }
}

/// A file name with its extension replaced: the part after the last dot
/// is replaced by `ext`; a name with no dot gets a dot and `ext` appended.
pub open spec fn spec_with_ext(name: Seq<char>, ext: Seq<char>) -> Seq<char> {
    spec_stem(name) + seq!['.'] + ext
}

proof fn lemma_stem_prefix(name: Seq<char>, k: int)
    requires
        0 <= k <= name.len(),
        forall|j: int| k <= j < name.len() ==> name[j] != '.',
        k > 0 ==> name[k - 1] == '.',
    ensures
        k == 0 ==> spec_stem(name) == name,
        k > 0 ==> spec_stem(name) == name.take(k - 1),
    decreases name.len() - k,
{
    if k == 0 {
        if name.contains('.') {
            let j = choose|j: int| 0 <= j < name.len() && name[j] == '.';
            assert(false);
        }
    } else if k == name.len() {
        assert(name.last() == '.');
        assert(name.contains('.'));
        assert(name.drop_last() =~= name.take(k - 1));
    } else {
        lemma_stem_prefix(name.drop_last(), k);
        assert(name.last() != '.');
        assert(name[k - 1] == '.');
        assert(name.contains('.'));
        assert(name.drop_last().take(k - 1) =~= name.take(k - 1));
    }
}

/// Position right after the last occurrence of `sep`, or 0 if `sep` does
/// not occur.
fn pos_after_last(s: &str, sep: char) -> (k: usize)
    ensures
        k <= s@.len(),
        k > 0 ==> s@[k - 1] == sep,
        forall|j: int| k <= j < s@.len() ==> s@[j] != sep,
{
    let n = s.unicode_len();
    let mut k: usize = 0;
    let mut i: usize = 0;
    while i < n
        invariant
            n == s@.len(),
            k <= i <= n,
            k > 0 ==> s@[k - 1] == sep,
            forall|j: int| k <= j < i ==> s@[j] != sep,
        decreases n - i,
    {
        if s.get_char(i) == sep {
            k = i + 1;
        }
        i = i + 1;
    }
    k
}

/// The file-name part of a path, or `None` when the path has none (it is
/// empty or ends in a separator).
pub fn file_name_of(path: &String) -> (r: Option<String>)
    ensures
        match r {
            Some(f) => f@ == spec_file_name(path@) && f@.len() > 0,
            None => spec_file_name(path@).len() == 0,
        },
{
    let s = path.as_str();
    let n = s.unicode_len();
    let k = pos_after_last(s, '/');
    proof {
        lemma_file_name_suffix(path@, k as int);
    }
    if k == n {
        None
    } else {
        let f = s.substring_char(k, n);
        proof {
            assert(f@ =~= path@.skip(k as int));
        }
        Some(String::from_str(f))
    }
}

/// A file name with its extension replaced by `ext`.
pub fn with_extension(name: &String, ext: &str) -> (r: String)
    ensures
        r@ == spec_with_ext(name@, ext@),
{
    let s = name.as_str();
    let n = s.unicode_len();
    let k = pos_after_last(s, '.');
    proof {
        lemma_stem_prefix(name@, k as int);
    }
    let mut r: String;
    if k == 0 {
        r = name.clone();
    } else {
        let stem = s.substring_char(0, k - 1);
        proof {
            assert(stem@ =~= name@.take(k - 1));
        }
        r = String::from_str(stem);
    }
    r.append(".");
    r.append(ext);
    proof {
        reveal_strlit(".");
        assert(r@ =~= spec_with_ext(name@, ext@));
    }
    r
}

/// The include flags of a compiler invocation: `-I` followed by the
/// directory, once per include directory, in order.
pub open spec fn spec_include_args(includes: Seq<Seq<char>>) -> Seq<Seq<char>>
    decreases includes.len(),
{
    if includes.len() == 0 {
        Seq::empty()
    } else {
        spec_include_args(includes.drop_last()) + seq!["-I"@, includes.last()]
    }
}

/// The full command line of the bridging pass: include flags, the schema
/// files, the plugin flag naming the plugin executable, and the output
/// flag naming the shared output directory.
pub open spec fn spec_bridging_args(
    protos: Seq<Seq<char>>,
    includes: Seq<Seq<char>>,
    plugin: Seq<char>,
    out_dir: Seq<char>,
) -> Seq<Seq<char>> {
    spec_include_args(includes) + protos + seq![
        "--plugin=protoc-gen=brpc="@ + plugin,
        "--brpc_out"@,
        out_dir,
    ]
}

/// The schema files as the native pass reads them: the copies already
/// written into the shared output directory by the earlier passes.
pub open spec fn spec_out_protos(protos: Seq<Seq<char>>, out_dir: Seq<char>) -> Seq<Seq<char>>
    decreases protos.len(),
{
    if protos.len() == 0 {
        Seq::empty()
    } else {
        spec_out_protos(protos.drop_last(), out_dir) + seq![
            spec_join_path(out_dir, spec_file_name(protos.last())),
        ]
    }
}

/// The full command line of the native pass: one include flag for the
/// shared output directory, the schema copies inside it, and the native
/// output flag pointing back at it.
pub open spec fn spec_native_args(protos: Seq<Seq<char>>, out_dir: Seq<char>) -> Seq<Seq<char>> {
    seq!["-I"@, out_dir] + spec_out_protos(protos, out_dir) + seq!["--cpp_out"@, out_dir]
}

/// The native sources the last pass compiles: for each schema file, in
/// order, its bridging unit and its message unit inside the output
/// directory.
pub open spec fn spec_native_sources(protos: Seq<Seq<char>>, out_dir: Seq<char>) -> Seq<Seq<char>>
    decreases protos.len(),
{
    if protos.len() == 0 {
        Seq::empty()
    } else {
        spec_native_sources(protos.drop_last(), out_dir) + seq![
            spec_join_path(out_dir, spec_with_ext(spec_file_name(protos.last()), "brpc.cc"@)),
            spec_join_path(out_dir, spec_with_ext(spec_file_name(protos.last()), "pb.cc"@)),
        ]
    }
}

/// Whether every schema path has a file name to derive output names from.
pub open spec fn all_file_names_valid(protos: Seq<Seq<char>>) -> bool {
    forall|i: int| 0 <= i < protos.len() ==> spec_file_name(#[trigger] protos[i]).len() > 0
}

impl PipelineConfig {
    /// The views of the schema paths.
    pub open spec fn proto_views(&self) -> Seq<Seq<char>> {
        views_of(self.protos@)
    }

    /// The views of the include directories.
    pub open spec fn include_views(&self) -> Seq<Seq<char>> {
        views_of(self.includes@)
    }
}

/// Build the command line of the bridging pass.
pub fn bridging_pass_args(cfg: &PipelineConfig, plugin_path: &String) -> (args: Vec<String>)
    ensures
        views_of(args@) == spec_bridging_args(
            cfg.proto_views(),
            cfg.include_views(),
            plugin_path@,
            cfg.out_dir@,
        ),
{
    let mut args: Vec<String> = Vec::new();
    let n_inc = cfg.includes.len();
    proof {
        assert(views_of(args@) =~= spec_include_args(cfg.include_views().take(0)));
    }
    let mut i: usize = 0;
    while i < n_inc
        invariant
            n_inc == cfg.includes@.len(),
            i <= n_inc,
            views_of(args@) == spec_include_args(cfg.include_views().take(i as int)),
        decreases n_inc - i,
    {
        let ghost pre = cfg.include_views().take(i as int);
        args.push(String::from_str("-I"));
        args.push(cfg.includes[i].clone());
        proof {
            let post = cfg.include_views().take(i + 1);
            assert(post.drop_last() =~= pre);
            assert(post.last() == cfg.includes@[i as int]@);
            assert(views_of(args@) =~= spec_include_args(post));
        }
        i = i + 1;
    }
    proof {
        assert(cfg.include_views().take(n_inc as int) =~= cfg.include_views());
    }
    let ghost inc_done = views_of(args@);
    let n_pro = cfg.protos.len();
    let mut i: usize = 0;
    while i < n_pro
        invariant
            n_pro == cfg.protos@.len(),
            i <= n_pro,
            views_of(args@) == inc_done + cfg.proto_views().take(i as int),
        decreases n_pro - i,
    {
        let s = cfg.protos[i].clone();
        let ghost pre_views = views_of(args@);
        args.push(s);
        proof {
            assert(s@ == cfg.protos@[i as int]@);
            assert(views_of(args@) =~= pre_views.push(s@));
            assert(cfg.proto_views().take(i + 1) =~= cfg.proto_views().take(i as int).push(
                cfg.protos@[i as int]@,
            ));
            assert(views_of(args@) =~= inc_done + cfg.proto_views().take(i + 1));
        }
        i = i + 1;
    }
    proof {
        assert(cfg.proto_views().take(n_pro as int) =~= cfg.proto_views());
    }
    let mut plugin_flag = String::from_str("--plugin=protoc-gen=brpc=");
    plugin_flag.append(plugin_path.as_str());
    args.push(plugin_flag);
    args.push(String::from_str("--brpc_out"));
    args.push(cfg.out_dir.clone());
    proof {
        assert(views_of(args@) =~= spec_bridging_args(
            cfg.proto_views(),
            cfg.include_views(),
            plugin_path@,
            cfg.out_dir@,
        ));
    }
    args
}

/// Build the command line of the native pass. Fails exactly when some
/// schema path has no file name.
pub fn native_pass_args(cfg: &PipelineConfig) -> (r: Result<Vec<String>, BuildError>)
    ensures
        all_file_names_valid(cfg.proto_views()) ==> (r matches Ok(args) && views_of(args@)
            == spec_native_args(cfg.proto_views(), cfg.out_dir@)),
        !all_file_names_valid(cfg.proto_views()) ==> r == Err::<Vec<String>, BuildError>(
            BuildError::InvalidFileName,
        ),
{
    let mut args: Vec<String> = Vec::new();
    args.push(String::from_str("-I"));
    args.push(cfg.out_dir.clone());
    let ghost head = views_of(args@);
    proof {
        assert(head =~= seq!["-I"@, cfg.out_dir@]);
    }
    let n = cfg.protos.len();
    let mut i: usize = 0;
    while i < n
        invariant
            n == cfg.protos@.len(),
            i <= n,
            views_of(args@) == head + spec_out_protos(cfg.proto_views().take(i as int),
                cfg.out_dir@,
            ),
            head == seq!["-I"@, cfg.out_dir@],
            forall|j: int| 0 <= j < i ==> spec_file_name(
                #[trigger] cfg.proto_views()[j],
            ).len() > 0,
        decreases n - i,
    {
        let ghost pre = cfg.proto_views().take(i as int);
        proof {
            assert(cfg.proto_views()[i as int] == cfg.protos@[i as int]@);
        }
        match file_name_of(&cfg.protos[i]) {
            None => {
                proof {
                    assert(spec_file_name(cfg.proto_views()[i as int]).len() == 0);
                    assert(!all_file_names_valid(cfg.proto_views()));
                }
                return Err(BuildError::InvalidFileName);
            },
            Some(f) => {
                let p = join_path(&cfg.out_dir, &f);
                let ghost pre_views = views_of(args@);
                args.push(p);
                proof {
                    assert(views_of(args@) =~= pre_views.push(
                        spec_join_path(cfg.out_dir@, f@),
                    ));
                    let post = cfg.proto_views().take(i + 1);
                    assert(post.drop_last() =~= pre);
                    assert(post.last() == cfg.proto_views()[i as int]);
                    assert(views_of(args@) =~= head + spec_out_protos(post, cfg.out_dir@));
                }
            },
        }
        i = i + 1;
    }
    proof {
        assert(cfg.proto_views().take(n as int) =~= cfg.proto_views());
    }
    args.push(String::from_str("--cpp_out"));
    args.push(cfg.out_dir.clone());
    proof {
        assert(views_of(args@) =~= spec_native_args(cfg.proto_views(), cfg.out_dir@));
    }
    Ok(args)
}

/// Name the native sources the last pass compiles. Fails exactly when
/// some schema path has no file name.
pub fn native_source_files(cfg: &PipelineConfig) -> (r: Result<Vec<String>, BuildError>)
    ensures
        all_file_names_valid(cfg.proto_views()) ==> (r matches Ok(files) && views_of(files@)
            == spec_native_sources(cfg.proto_views(), cfg.out_dir@)),
        !all_file_names_valid(cfg.proto_views()) ==> r == Err::<Vec<String>, BuildError>(
            BuildError::InvalidFileName,
        ),
{
    let mut files: Vec<String> = Vec::new();
    proof {
        assert(views_of(files@) =~= spec_native_sources(cfg.proto_views().take(0), cfg.out_dir@));
    }
    let n = cfg.protos.len();
    let mut i: usize = 0;
    while i < n
        invariant
            n == cfg.protos@.len(),
            i <= n,
            views_of(files@) == spec_native_sources(cfg.proto_views().take(i as int),
                cfg.out_dir@,
            ),
            forall|j: int| 0 <= j < i ==> spec_file_name(
                #[trigger] cfg.proto_views()[j],
            ).len() > 0,
        decreases n - i,
    {
        let ghost pre = cfg.proto_views().take(i as int);
        proof {
            assert(cfg.proto_views()[i as int] == cfg.protos@[i as int]@);
        }
        match file_name_of(&cfg.protos[i]) {
            None => {
                proof {
                    assert(spec_file_name(cfg.proto_views()[i as int]).len() == 0);
                    assert(!all_file_names_valid(cfg.proto_views()));
                }
                return Err(BuildError::InvalidFileName);
            },
            Some(f) => {
                let ghost pre_views = views_of(files@);
                let bridging = with_extension(&f, "brpc.cc");
                files.push(join_path(&cfg.out_dir, &bridging));
                proof {
                    assert(views_of(files@) =~= pre_views.push(
                        spec_join_path(cfg.out_dir@, spec_with_ext(f@, "brpc.cc"@)),
                    ));
                }
                let ghost mid_views = views_of(files@);
                let native = with_extension(&f, "pb.cc");
                files.push(join_path(&cfg.out_dir, &native));
                proof {
                    assert(views_of(files@) =~= mid_views.push(
                        spec_join_path(cfg.out_dir@, spec_with_ext(f@, "pb.cc"@)),
                    ));
                    let post = cfg.proto_views().take(i + 1);
                    assert(post.drop_last() =~= pre);
                    assert(post.last() == cfg.proto_views()[i as int]);
                    assert(views_of(files@) =~= spec_native_sources(post, cfg.out_dir@));
                }
            },
        }
        i = i + 1;
    }
    proof {
        assert(cfg.proto_views().take(n as int) =~= cfg.proto_views());
    }
    Ok(files)
}

/// The libraries every produced artifact links against, regardless of
/// schema content: the RPC transport, the structured-serialization
/// runtime, the command-line-flag runtime, the embedded key-value store,
/// and the TLS/crypto pair.
pub fn link_libs() -> (libs: Vec<String>)
    ensures
        libs@.len() == 6,
        libs@[0]@ == "brpc"@,
        libs@[1]@ == "protobuf"@,
        libs@[2]@ == "gflags"@,
        libs@[3]@ == "leveldb"@,
        libs@[4]@ == "ssl"@,
        libs@[5]@ == "crypto"@,
{
    let mut libs: Vec<String> = Vec::new();
    libs.push(String::from_str("brpc"));
    libs.push(String::from_str("protobuf"));
    libs.push(String::from_str("gflags"));
    libs.push(String::from_str("leveldb"));
    libs.push(String::from_str("ssl"));
    libs.push(String::from_str("crypto"));
    libs
}

/// The three passes, in their fixed order.
#[derive(Clone, Copy, Debug, PartialEq, Eq, Structural)]
pub enum PipelinePass {
    /// Structural codegen: managed message types from the schema files.
    StructuralCodegen,
    /// Bridging codegen: service-stub glue emitted by the plugin.
    BridgingCodegen,
    /// Native codegen and compilation of the bridging unit.
    NativeCompilation,
}

/// How far a pipeline run has come.
#[derive(Clone, Copy, Debug, PartialEq, Eq, Structural)]
pub enum PipelineState {
    /// Nothing ran yet.
    Ready,
    /// The structural pass finished.
    StructuralDone,
    /// The bridging pass finished.
    BridgingDone,
    /// All three passes finished.
    Complete,
}

/// The state a successful pass leads to.
pub open spec fn spec_next_state(s: PipelineState) -> PipelineState {
    match s {
        PipelineState::Ready => PipelineState::StructuralDone,
        PipelineState::StructuralDone => PipelineState::BridgingDone,
        PipelineState::BridgingDone => PipelineState::Complete,
        PipelineState::Complete => PipelineState::Complete,
    }
}

/// The pass that must run next, in the fixed order: structural, then
/// bridging, then native; `None` once all three finished.
pub fn next_pass(state: &PipelineState) -> (p: Option<PipelinePass>)
    ensures
        *state is Ready ==> p == Some(PipelinePass::StructuralCodegen),
        *state is StructuralDone ==> p == Some(PipelinePass::BridgingCodegen),
        *state is BridgingDone ==> p == Some(PipelinePass::NativeCompilation),
        *state is Complete ==> p is None,
{
    match state {
        PipelineState::Ready => Some(PipelinePass::StructuralCodegen),
        PipelineState::StructuralDone => Some(PipelinePass::BridgingCodegen),
        PipelineState::BridgingDone => Some(PipelinePass::NativeCompilation),
        PipelineState::Complete => None,
    }
}

/// Fold the outcome of the pass that just ran into the pipeline state: on
/// success the run advances to the next state; any failure aborts the
/// whole run immediately, carrying the captured diagnostic text. There is
/// no partial retry.
pub fn apply_pass_outcome(state: &PipelineState, success: bool, diagnostics: String) -> (r: Result<
    PipelineState,
    BuildError,
>)
    requires
        !(*state is Complete),
    ensures
        success ==> r == Ok::<PipelineState, BuildError>(spec_next_state(*state)),
        !success ==> r == Err::<PipelineState, BuildError>(BuildError::ProcessFailed(diagnostics)),
{
    if success {
        match state {
            PipelineState::Ready => Ok(PipelineState::StructuralDone),
            PipelineState::StructuralDone => Ok(PipelineState::BridgingDone),
            _ => Ok(PipelineState::Complete),
        }
    } else {
        Err(BuildError::ProcessFailed(diagnostics))
    }
}

/// Everything decided before any external process is spawned.
pub struct PipelinePlan {
    /// Where the plugin executable was found.
    pub plugin_path: String,
    /// Command line of the bridging pass.
    pub bridging_args: Vec<String>,
    /// Command line of the native pass.
    pub native_args: Vec<String>,
    /// Native sources the last pass compiles.
    pub native_sources: Vec<String>,
}

/// Plan a whole pipeline run up front. If the plugin executable is absent
/// from the search path the plan fails with a not-found configuration
/// error before anything is spawned; if some schema path has no file name
/// it fails likewise. Otherwise every command line of the run is fixed
/// here, as a function of the configuration alone.
pub fn plan_pipeline(cfg: &PipelineConfig, plugin_path: &Option<String>) -> (r: Result<
    PipelinePlan,
    BuildError,
>)
    ensures
        plugin_path is None ==> r == Err::<PipelinePlan, BuildError>(BuildError::PluginNotFound),
        plugin_path matches Some(p) ==> (all_file_names_valid(cfg.proto_views()) ==> (r matches Ok(
            plan,
        ) && plan.plugin_path@ == p@ && views_of(plan.bridging_args@) == spec_bridging_args(
            cfg.proto_views(),
            cfg.include_views(),
            p@,
            cfg.out_dir@,
        ) && views_of(plan.native_args@) == spec_native_args(cfg.proto_views(), cfg.out_dir@)
            && views_of(plan.native_sources@) == spec_native_sources(
            cfg.proto_views(),
            cfg.out_dir@,
        ))),
        (plugin_path matches Some(_) && !all_file_names_valid(cfg.proto_views())) ==> r == Err::<
            PipelinePlan,
            BuildError,
        >(BuildError::InvalidFileName),
{
    match plugin_path {
        None => Err(BuildError::PluginNotFound),
        Some(p) => {
            let native_args = match native_pass_args(cfg) {
                Ok(a) => a,
                Err(e) => {
                    return Err(e);
                },
            };
            let native_sources = match native_source_files(cfg) {
                Ok(f) => f,
                Err(e) => {
                    return Err(e);
                },
            };
            let bridging_args = bridging_pass_args(cfg, p);
            Ok(PipelinePlan { plugin_path: p.clone(), bridging_args, native_args, native_sources })
        },
    }
}

/// The pipeline keeps no state between runs: every command line it decides
/// is a function of the configuration and the plugin location alone, so
/// two runs over unchanged inputs are planned identically.
pub proof fn lemma_plan_deterministic(
    protos1: Seq<Seq<char>>,
    includes1: Seq<Seq<char>>,
    plugin1: Seq<char>,
    out1: Seq<char>,
    protos2: Seq<Seq<char>>,
    includes2: Seq<Seq<char>>,
    plugin2: Seq<char>,
    out2: Seq<char>,
)
    requires
        protos1 == protos2,
        includes1 == includes2,
        plugin1 == plugin2,
        out1 == out2,
    ensures
        spec_bridging_args(protos1, includes1, plugin1, out1) == spec_bridging_args(
            protos2,
            includes2,
            plugin2,
            out2,
        ),
        spec_native_args(protos1, out1) == spec_native_args(protos2, out2),
        spec_native_sources(protos1, out1) == spec_native_sources(protos2, out2),
{
}

} // verus!
