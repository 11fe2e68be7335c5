use vstd::prelude::*;

verus! {

/// Directory where the local file system repository keeps its resources by default.
pub const DEFAULT_REPO_DIR_PATH: &'static str = "/opt/confidential-containers/kbs/repository";

/// Joins `part` onto `base` the way a Unix path buffer pushes a component:
/// an absolute `part` replaces `base`; otherwise one `/` separates them unless
/// `base` is empty or already ends with `/`.
pub open spec fn path_push(base: Seq<char>, part: Seq<char>) -> Seq<char> {
    if part.len() > 0 && part[0] == '/' {
        part
    } else if base.len() == 0 || base.last() == '/' {
        base + part
    } else {
        base + seq!['/'] + part
    }
}

/// Pushes `part` onto the path `base` (see `path_push`).
pub fn push_path(base: &mut String, part: &str)
    ensures
        final(base)@ == path_push(old(base)@, part@),
{
    let plen: usize = part.unicode_len();
    if plen > 0 && part.get_char(0) == '/' {
        *base = part.to_string();
        return;
    }
    let blen: usize = base.as_str().unicode_len();
    if blen == 0 || base.as_str().get_char(blen - 1) == '/' {
        base.append(part);
    } else {
        proof {
            reveal_strlit("/");
        }
        base.append("/");
        base.append(part);
    }
}

} // verus!

verus! {

/// Where a secret resource lives: `<repository>/<type>/<tag>`.
#[derive(Debug)]
pub struct ResourceDesc {
    pub repository_name: String,
    pub resource_type: String,
    pub resource_tag: String,
}

/// The three names of a resource, as text.
pub struct ResourceDescView {
    pub repository_name: Seq<char>,
    pub resource_type: Seq<char>,
    pub resource_tag: Seq<char>,
}

impl View for ResourceDesc {
    type V = ResourceDescView;

    open spec fn view(&self) -> ResourceDescView {
        ResourceDescView {
            repository_name: self.repository_name@,
            resource_type: self.resource_type@,
            resource_tag: self.resource_tag@,
        }
    }
}

impl ResourceDesc {
    /// The resource's reference path, `<repository>/<type>/<tag>`.
    pub open spec fn spec_ref_path(&self) -> Seq<char> {
        self.repository_name@ + seq!['/'] + self.resource_type@ + seq!['/'] + self.resource_tag@
    }

    /// Builds the reference path `<repository>/<type>/<tag>`.
    pub fn ref_path(&self) -> (res: String)
        ensures
            res@ == self.spec_ref_path(),
    {
        proof {
            reveal_strlit("/");
        }
        let mut res = self.repository_name.clone();
        res.append("/");
        res.append(self.resource_type.as_str());
        res.append("/");
        res.append(self.resource_tag.as_str());
        res
    }

}

/// Why the local repository failed.
#[derive(Debug)]
pub enum RepositoryError {
    /// The resource tool did not succeed; the message names the resource's reference path.
    ReadFailed(String),
}

/// The message of a failed read of the resource at reference path `ref_path`.
pub open spec fn read_failure_message(ref_path: Seq<char>) -> Seq<char> {
    "fail to read "@ + ref_path
}

/// Configuration of the local file system repository.
#[derive(Debug, Clone)]
pub struct LocalFsRepoDesc {
    pub dir_path: Option<String>,
}

impl Default for LocalFsRepoDesc {
    fn default() -> (res: Self)
        ensures
            res.dir_path matches Some(p) && p@ == DEFAULT_REPO_DIR_PATH@,
    {
        LocalFsRepoDesc { dir_path: Some(DEFAULT_REPO_DIR_PATH.to_string()) }
    }
}

/// A repository of secret resources kept under one directory.
#[derive(Debug)]
pub struct LocalFs {
    pub repo_dir_path: String,
}

/// The directory a description names: the configured one, or the default.
pub open spec fn configured_dir(desc: LocalFsRepoDesc) -> Seq<char> {
    match desc.dir_path {
        Some(p) => p@,
        None => DEFAULT_REPO_DIR_PATH@,
    }
}

/// The arguments with which the resource tool reads a resource from `dir`.
pub open spec fn read_args(dir: Seq<char>, d: ResourceDescView) -> Seq<Seq<char>> {
    seq![
        "get"@,
        "-d"@,
        dir,
        "-r"@,
        d.repository_name,
        "-k"@,
        d.resource_type,
        "-t"@,
        d.resource_tag,
    ]
}

/// The directory that holds a resource: `<dir>` pushed with repository and type.
pub open spec fn spec_resource_dir(dir: Seq<char>, d: ResourceDescView) -> Seq<char> {
    path_push(path_push(dir, d.repository_name), d.resource_type)
}

/// The file that holds a resource: its directory pushed with the tag.
pub open spec fn spec_resource_file(dir: Seq<char>, d: ResourceDescView) -> Seq<char> {
    path_push(spec_resource_dir(dir, d), d.resource_tag)
}

impl LocalFs {
    /// Opens the repository at the configured directory, or at the default one.
    pub fn new(repo_desc: &LocalFsRepoDesc) -> (res: Result<LocalFs, RepositoryError>)
        ensures
            res matches Ok(fs) && fs.repo_dir_path@ == configured_dir(*repo_desc),
            repo_desc.dir_path matches Some(p) ==> (res matches Ok(fs) && fs.repo_dir_path@ == p@),
            repo_desc.dir_path is None ==> (res matches Ok(fs) && fs.repo_dir_path@
                == DEFAULT_REPO_DIR_PATH@),
    {
        let repo_dir_path = match &repo_desc.dir_path {
            Some(p) => p.clone(),
            None => DEFAULT_REPO_DIR_PATH.to_string(),
        };
        Ok(LocalFs { repo_dir_path })
    }

    /// The directory into which a resource is written; created when missing.
    pub fn resource_dir(&self, desc: &ResourceDesc) -> (res: String)
        ensures
            res@ == spec_resource_dir(self.repo_dir_path@, desc@),
    {
        let mut path = self.repo_dir_path.clone();
        push_path(&mut path, desc.repository_name.as_str());
        push_path(&mut path, desc.resource_type.as_str());
        path
    }

    /// The file into which a resource is written.
    pub fn resource_file(&self, desc: &ResourceDesc) -> (res: String)
        ensures
            res@ == spec_resource_file(self.repo_dir_path@, desc@),
    {
        let mut path = self.resource_dir(desc);
        push_path(&mut path, desc.resource_tag.as_str());
        path
    }

    /// The arguments of the resource tool that reads a resource:
    /// `get -d <dir> -r <repository> -k <type> -t <tag>`.
    pub fn read_command_args(&self, desc: &ResourceDesc) -> (res: Vec<String>)
        ensures
            res@.map_values(|a: String| a@) == read_args(self.repo_dir_path@, desc@),
    {
        let mut args: Vec<String> = Vec::new();
        args.push("get".to_string());
        args.push("-d".to_string());
        args.push(self.repo_dir_path.clone());
        args.push("-r".to_string());
        args.push(desc.repository_name.clone());
        args.push("-k".to_string());
        args.push(desc.resource_type.clone());
        args.push("-t".to_string());
        args.push(desc.resource_tag.clone());
        assert(args@.map_values(|a: String| a@) =~= read_args(self.repo_dir_path@, desc@));
        args
    }

    /// What a read returns once the resource tool has run: its output when it
    /// succeeded, else a failure that names the resource.
    pub fn read_outcome(&self, desc: &ResourceDesc, succeeded: bool, output: Vec<u8>) -> (res: Result<
        Vec<u8>,
        RepositoryError,
    >)
        ensures
            succeeded ==> (res matches Ok(bytes) && bytes@ == output@),
            !succeeded ==> (res matches Err(RepositoryError::ReadFailed(m)) && m@
                == read_failure_message(desc.spec_ref_path())),
    {
        if succeeded {
            Ok(output)
        } else {
            let mut message = "fail to read ".to_string();
            let path = desc.ref_path();
            message.append(path.as_str());
            Err(RepositoryError::ReadFailed(message))
        }
    }
}

/// Law: a read asks the resource tool for the file that a write stores: the
/// tool is told to `get` with the flags `-d -r -k -t`, and its directory and
/// three names, pushed in that order, give the written file.
pub proof fn law_read_addresses_written_file(dir: Seq<char>, d: ResourceDescView)
    ensures
        ({
            let args = read_args(dir, d);
            &&& args.len() == 9
            &&& args[0] == "get"@
            &&& args[1] == "-d"@ && args[3] == "-r"@ && args[5] == "-k"@ && args[7] == "-t"@
            &&& path_push(path_push(path_push(args[2], args[4]), args[6]), args[8])
                == spec_resource_file(dir, d)
        }),
{
}

/// A name that can stand as one path component: not empty, without `/`.
pub open spec fn is_component(name: Seq<char>) -> bool {
    name.len() > 0 && forall|i: int| 0 <= i < name.len() ==> name[i] != '/'
}

proof fn lemma_split_at_separator(a: Seq<char>, x: Seq<char>, b: Seq<char>, y: Seq<char>)
    requires
        is_component(a),
        is_component(b),
        a + seq!['/'] + x == b + seq!['/'] + y,
    ensures
        a == b,
        x == y,
{
    let l = a + seq!['/'] + x;
    let r = b + seq!['/'] + y;
    if a.len() < b.len() {
        assert(l[a.len() as int] == '/');
        assert(r[a.len() as int] == b[a.len() as int]);
    } else if b.len() < a.len() {
        assert(r[b.len() as int] == '/');
        assert(l[b.len() as int] == a[b.len() as int]);
    }
    assert(a =~= l.subrange(0, a.len() as int));
    assert(b =~= r.subrange(0, b.len() as int));
    assert(x =~= l.subrange(a.len() as int + 1, l.len() as int));
    assert(y =~= r.subrange(b.len() as int + 1, r.len() as int));
}

/// Law: pushing a component keeps it whole at the end of the path; a
/// relative component keeps the base path whole at the front, separated by at
/// most one added `/`, while an absolute one replaces the path.
pub proof fn law_path_push(base: Seq<char>, part: Seq<char>)
    ensures
        ({
            let p = path_push(base, part);
            &&& p.len() >= part.len()
            &&& p.subrange(p.len() - part.len(), p.len() as int) == part
            &&& part.len() > 0 && part[0] == '/' ==> p == part
            &&& !(part.len() > 0 && part[0] == '/') ==> {
                &&& p.subrange(0, base.len() as int) == base
                &&& base.len() + part.len() <= p.len() <= base.len() + part.len() + 1
                &&& p.len() == base.len() + part.len() + 1 ==> p[base.len() as int] == '/'
                    && base.len() > 0 && base.last() != '/'
            }
        }),
{
    let p = path_push(base, part);
    assert(p.subrange(p.len() - part.len(), p.len() as int) =~= part);
    if !(part.len() > 0 && part[0] == '/') {
        assert(p.subrange(0, base.len() as int) =~= base);
    }
}

/// Law: the reference path is the repository, the type and the tag, in that
/// order, each followed by one `/` but the last.
pub proof fn law_ref_path(d: ResourceDesc)
    ensures
        d.spec_ref_path() == d.repository_name@ + seq!['/'] + d.resource_type@ + seq!['/']
            + d.resource_tag@,
        d.spec_ref_path().len() == d.repository_name@.len() + d.resource_type@.len()
            + d.resource_tag@.len() + 2,
{
}

/// `dir` as the prefix that a relative component is pushed onto.
pub open spec fn dir_prefix(dir: Seq<char>) -> Seq<char> {
    if dir.len() == 0 || dir.last() == '/' {
        dir
    } else {
        dir + seq!['/']
    }
}

/// Law: with names that are proper path components, a resource's file is the
/// repository directory (with one `/` added unless it is empty or ends in
/// one), then `<repository>/<type>/<tag>` in that order.
pub proof fn law_resource_file_shape(dir: Seq<char>, d: ResourceDescView)
    requires
        is_component(d.repository_name),
        is_component(d.resource_type),
        is_component(d.resource_tag),
    ensures
        spec_resource_file(dir, d) == dir_prefix(dir) + (d.repository_name + seq!['/'] + (
        d.resource_type + seq!['/'] + d.resource_tag)),
{
    let r = d.repository_name;
    let t = d.resource_type;
    let g = d.resource_tag;
    assert(r[0] != '/');
    assert(t[0] != '/');
    assert(g[0] != '/');
    assert(path_push(dir, r) == dir_prefix(dir) + r);
    let p1 = dir_prefix(dir) + r;
    assert(p1.last() == r.last());
    assert(r.last() == r[r.len() - 1]);
    assert(path_push(p1, t) == p1 + seq!['/'] + t);
    let p2 = p1 + seq!['/'] + t;
    assert(p2.last() == t[t.len() - 1]);
    assert(path_push(p2, g) == p2 + seq!['/'] + g);
    assert(p2 + seq!['/'] + g =~= dir_prefix(dir) + (r + seq!['/'] + (t + seq!['/'] + g)));
}

/// Law: in one repository directory, two different resources whose names are
/// proper path components are written to different files, so a write never
/// overwrites another resource.
pub proof fn law_distinct_resources_distinct_files(
    dir: Seq<char>,
    d1: ResourceDescView,
    d2: ResourceDescView,
)
    requires
        is_component(d1.repository_name),
        is_component(d1.resource_type),
        is_component(d1.resource_tag),
        is_component(d2.repository_name),
        is_component(d2.resource_type),
        is_component(d2.resource_tag),
        d1 != d2,
    ensures
        spec_resource_file(dir, d1) != spec_resource_file(dir, d2),
{
    law_resource_file_shape(dir, d1);
    law_resource_file_shape(dir, d2);
    if spec_resource_file(dir, d1) == spec_resource_file(dir, d2) {
        let p = dir_prefix(dir);
        let s1 = d1.repository_name + seq!['/'] + (d1.resource_type + seq!['/'] + d1.resource_tag);
        let s2 = d2.repository_name + seq!['/'] + (d2.resource_type + seq!['/'] + d2.resource_tag);
        assert(s1 =~= (p + s1).subrange(p.len() as int, (p + s1).len() as int));
        assert(s2 =~= (p + s2).subrange(p.len() as int, (p + s2).len() as int));
        lemma_split_at_separator(
            d1.repository_name,
            d1.resource_type + seq!['/'] + d1.resource_tag,
            d2.repository_name,
            d2.resource_type + seq!['/'] + d2.resource_tag,
        );
        lemma_split_at_separator(d1.resource_type, d1.resource_tag, d2.resource_type, d2.resource_tag);
        assert(d1 == d2);
    }
}

/// Law: the repository lives exactly in the configured directory, whatever
/// its text (relative or absolute), and in the default directory only when
/// none is configured.
pub proof fn law_configured_dir(desc: LocalFsRepoDesc, p: String)
    ensures
        desc.dir_path == Some(p) ==> configured_dir(desc) == p@,
        desc.dir_path is None ==> configured_dir(desc) == DEFAULT_REPO_DIR_PATH@,
{
}

} // verus!
