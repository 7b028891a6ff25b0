use vstd::prelude::*;

verus! {

/// A path as its components, each the bytes of one name (a root component
/// stands first where the path has one).
pub open spec fn path_view(p: Seq<Vec<u8>>) -> Seq<Seq<u8>> {
    Seq::new(p.len(), |i: int| p[i]@)
}

pub open spec fn dot() -> u8 {
    0x2e
}

/// `".png"`, the ending of every input file's name.
pub open spec fn input_suffix() -> Seq<u8> {
    seq![0x2eu8, 0x70u8, 0x6eu8, 0x67u8]
}

/// `".jpg"`, the ending of every output file's name.
pub open spec fn output_suffix() -> Seq<u8> {
    seq![0x2eu8, 0x6au8, 0x70u8, 0x67u8]
}

/// A file name whose extension is exactly `png`: it ends in `.png` and
/// something stands before that dot (`.png` alone is a hidden file without
/// extension). The match is case-sensitive.
pub open spec fn is_input_name(name: Seq<u8>) -> bool {
    name.len() > 4 && name.subrange(name.len() - 4, name.len() as int) == input_suffix()
}

/// The position of the last dot among the first `i` bytes of `name`, or -1.
pub open spec fn last_dot_before(name: Seq<u8>, i: int) -> int
    decreases i,
{
    if i <= 0 {
        -1
    } else if name[i - 1] == dot() {
        i - 1
    } else {
        last_dot_before(name, i - 1)
    }
}

/// A name without its extension: what comes before the last dot, where that
/// dot is not the first byte; otherwise the whole name.
pub open spec fn stem_of(name: Seq<u8>) -> Seq<u8> {
    let d = last_dot_before(name, name.len() as int);
    if d > 0 {
        name.take(d)
    } else {
        name
    }
}

/// A name with its extension replaced by `jpg` (added where it has none).
pub open spec fn output_name(name: Seq<u8>) -> Seq<u8> {
    stem_of(name) + output_suffix()
}

/// `file` lies strictly below `root`.
pub open spec fn lies_under(file: Seq<Seq<u8>>, root: Seq<Seq<u8>>) -> bool {
    root.len() < file.len() && file.take(root.len() as int) == root
}

/// The directories between the source root and the file itself.
pub open spec fn middle_of(file: Seq<Seq<u8>>, root: Seq<Seq<u8>>) -> Seq<Seq<u8>> {
    file.subrange(root.len() as int, file.len() - 1)
}

/// The directory that receives the output for `file`.
pub open spec fn destination_dir_of(file: Seq<Seq<u8>>, src: Seq<Seq<u8>>, dst: Seq<Seq<u8>>) -> Seq<
    Seq<u8>,
> {
    dst + middle_of(file, src)
}

/// The output path for `file`: its place below `src`, re-rooted at `dst`,
/// with the extension of its name replaced.
pub open spec fn destination_of(file: Seq<Seq<u8>>, src: Seq<Seq<u8>>, dst: Seq<Seq<u8>>) -> Option<
    Seq<Seq<u8>>,
> {
    if lies_under(file, src) {
        Some(destination_dir_of(file, src, dst).push(output_name(file.last())))
    } else {
        None
    }
}

pub fn bytes_equal(a: &Vec<u8>, b: &Vec<u8>) -> (r: bool)
    ensures
        r == (a@ == b@),
{
    if a.len() != b.len() {
        return false;
    }
    let mut i: usize = 0;
    while i < a.len()
        invariant
            a@.len() == b@.len(),
            i <= a@.len(),
            forall|j: int| 0 <= j < i ==> a@[j] == b@[j],
        decreases a@.len() - i,
    {
        if a[i] != b[i] {
            return false;
        }
        i = i + 1;
    }
    assert(a@ =~= b@);
    true
}

fn copy_bytes(a: &Vec<u8>) -> (r: Vec<u8>)
    ensures
        r@ == a@,
{
    let mut r: Vec<u8> = Vec::with_capacity(a.len());
    let mut i: usize = 0;
    while i < a.len()
        invariant
            i <= a@.len(),
            r@ == a@.take(i as int),
        decreases a@.len() - i,
    {
        r.push(a[i]);
        i = i + 1;
        assert(r@ =~= a@.take(i as int));
    }
    assert(a@.take(a@.len() as int) =~= a@);
    r
}

pub fn paths_equal(a: &Vec<Vec<u8>>, b: &Vec<Vec<u8>>) -> (r: bool)
    ensures
        r == (path_view(a@) == path_view(b@)),
{
    if a.len() != b.len() {
        assert(path_view(a@).len() != path_view(b@).len());
        return false;
    }
    let mut i: usize = 0;
    while i < a.len()
        invariant
            a@.len() == b@.len(),
            i <= a@.len(),
            forall|j: int| 0 <= j < i ==> a@[j]@ == b@[j]@,
        decreases a@.len() - i,
    {
        if !bytes_equal(&a[i], &b[i]) {
            assert(path_view(a@)[i as int] != path_view(b@)[i as int]);
            return false;
        }
        i = i + 1;
    }
    assert(path_view(a@) =~= path_view(b@));
    true
}

/// Whether a file name marks an input file (extension exactly `png`).
pub fn is_input_file_name(name: &Vec<u8>) -> (r: bool)
    ensures
        r == is_input_name(name@),
{
    let n = name.len();
    if n <= 4 {
        return false;
    }
    let r = name[n - 4] == 0x2e && name[n - 3] == 0x70 && name[n - 2] == 0x6e && name[n - 1]
        == 0x67;
    assert(r == (name@.subrange(n - 4, n as int) =~= input_suffix()));
    r
}

/// The position of the last dot in `name`, or -1 where it has none.
fn last_dot(name: &Vec<u8>) -> (r: i64)
    requires
        name@.len() < 0x7fff_ffff_ffff_ffff,
    ensures
        r == last_dot_before(name@, name@.len() as int),
{
    let mut i: usize = name.len();
    while i > 0
        invariant
            i <= name@.len() < 0x7fff_ffff_ffff_ffff,
            last_dot_before(name@, name@.len() as int) == last_dot_before(name@, i as int),
        decreases i,
    {
        if name[i - 1] == 0x2e {
            return (i - 1) as i64;
        }
        i = i - 1;
    }
    -1
}

/// A file name with its extension replaced by `jpg`.
pub fn output_file_name(name: &Vec<u8>) -> (r: Vec<u8>)
    requires
        name@.len() < 0x7fff_ffff_ffff_ffff,
    ensures
        r@ == output_name(name@),
{
    let n = name.len();
    let d = last_dot(name);
    let mut r: Vec<u8> = Vec::new();
    let end: usize = if d > 0 {
        d as usize
    } else {
        name.len()
    };
    proof {
        if d > 0 {
            assert(last_dot_before(name@, name@.len() as int) < name@.len()) by {
                lemma_last_dot_below(name@, name@.len() as int);
            }
        }
    }
    let mut i: usize = 0;
    while i < end
        invariant
            end <= name@.len(),
            i <= end,
            r@ == name@.take(i as int),
        decreases end - i,
    {
        r.push(name[i]);
        i = i + 1;
        assert(r@ =~= name@.take(i as int));
    }
    proof {
        if d > 0 {
            assert(end == d);
            assert(r@ =~= name@.take(d as int));
        } else {
            assert(end == name@.len());
            assert(r@ =~= name@);
        }
    }
    assert(r@ =~= stem_of(name@));
    r.push(0x2e);
    r.push(0x6a);
    r.push(0x70);
    r.push(0x67);
    assert(r@ =~= output_name(name@));
    r
}

proof fn lemma_last_dot_below(name: Seq<u8>, i: int)
    ensures
        last_dot_before(name, i) < i || last_dot_before(name, i) == -1,
    decreases i,
{
    if i > 0 && name[i - 1] != dot() {
        lemma_last_dot_below(name, i - 1);
    }
}

/// Whether `file` lies strictly below `root`.
pub fn is_under(file: &Vec<Vec<u8>>, root: &Vec<Vec<u8>>) -> (r: bool)
    ensures
        r == lies_under(path_view(file@), path_view(root@)),
{
    if root.len() >= file.len() {
        return false;
    }
    let mut i: usize = 0;
    while i < root.len()
        invariant
            root@.len() < file@.len(),
            i <= root@.len(),
            forall|j: int| 0 <= j < i ==> file@[j]@ == root@[j]@,
        decreases root@.len() - i,
    {
        if !bytes_equal(&file[i], &root[i]) {
            assert(path_view(file@).take(root@.len() as int)[i as int] != path_view(root@)[i as int]);
            return false;
        }
        i = i + 1;
    }
    assert(path_view(file@).take(root@.len() as int) =~= path_view(root@));
    true
}

/// The output directory for a file below `src`: `dst` followed by the
/// directories between `src` and the file.
pub fn destination_dir(file: &Vec<Vec<u8>>, src: &Vec<Vec<u8>>, dst: &Vec<Vec<u8>>) -> (r: Option<
    Vec<Vec<u8>>,
>)
    ensures
        match r {
            Some(d) => lies_under(path_view(file@), path_view(src@)) && path_view(d@)
                == destination_dir_of(path_view(file@), path_view(src@), path_view(dst@)),
            None => !lies_under(path_view(file@), path_view(src@)),
        },
{
    if !is_under(file, src) {
        return None;
    }
    let mut d: Vec<Vec<u8>> = Vec::new();
    let mut i: usize = 0;
    while i < dst.len()
        invariant
            i <= dst@.len(),
            d@.len() == i,
            path_view(d@) == path_view(dst@).take(i as int),
        decreases dst@.len() - i,
    {
        let c = copy_bytes(&dst[i]);
        d.push(c);
        assert(d@[i as int]@ == dst@[i as int]@);
        i = i + 1;
        assert(path_view(d@) =~= path_view(dst@).take(i as int));
    }
    assert(path_view(dst@).take(dst@.len() as int) =~= path_view(dst@));
    let last = file.len() - 1;
    let mut k: usize = src.len();
    while k < last
        invariant
            src@.len() <= k <= last,
            last == file@.len() - 1,
            d@.len() == dst@.len() + k - src@.len(),
            path_view(d@) == path_view(dst@) + path_view(file@).subrange(src@.len() as int, k as int),
        decreases last - k,
    {
        let c = copy_bytes(&file[k]);
        let ghost n = d@.len();
        let ghost before = path_view(d@);
        d.push(c);
        assert(d@[n as int]@ == file@[k as int]@);
        assert(path_view(d@) =~= before.push(path_view(file@)[k as int]));
        assert(path_view(file@).subrange(src@.len() as int, k + 1) =~= path_view(file@).subrange(
            src@.len() as int,
            k as int,
        ).push(path_view(file@)[k as int]));
        k = k + 1;
        assert(path_view(d@) =~= path_view(dst@) + path_view(file@).subrange(
            src@.len() as int,
            k as int,
        ));
    }
    Some(d)
}

/// The output path for `file`: `dst`, then the directories between `src` and
/// the file, then the file's name with its extension replaced by `jpg`.
/// `None` where `file` does not lie below `src`.
pub fn destination(file: &Vec<Vec<u8>>, src: &Vec<Vec<u8>>, dst: &Vec<Vec<u8>>) -> (r: Option<
    Vec<Vec<u8>>,
>)
    requires
        forall|i: int| 0 <= i < file@.len() ==> file@[i]@.len() < 0x7fff_ffff_ffff_ffff,
    ensures
        match (r, destination_of(path_view(file@), path_view(src@), path_view(dst@))) {
            (Some(d), Some(e)) => path_view(d@) == e,
            (None, None) => true,
            _ => false,
        },
{
    match destination_dir(file, src, dst) {
        None => None,
        Some(mut d) => {
            let name = output_file_name(&file[file.len() - 1]);
            let ghost before = path_view(d@);
            d.push(name);
            assert(path_view(d@) =~= before.push(output_name(path_view(file@).last())));
            Some(d)
        },
    }
}

/// Some path of `list` has the same components as `p`.
pub open spec fn holds_path(list: Seq<Vec<Vec<u8>>>, p: Seq<Seq<u8>>) -> bool {
    exists|j: int| 0 <= j < list.len() && #[trigger] path_view(list[j]@) == p
}

/// `d` is the output directory of some file of `files` that lies below `src`.
pub open spec fn needed_dir(
    files: Seq<Vec<Vec<u8>>>,
    src: Seq<Seq<u8>>,
    dst: Seq<Seq<u8>>,
    d: Seq<Seq<u8>>,
) -> bool {
    exists|i: int|
        0 <= i < files.len() && lies_under(path_view(files[i]@), src) && #[trigger] destination_dir_of(
            path_view(files[i]@),
            src,
            dst,
        ) == d
}

fn find_path(list: &Vec<Vec<Vec<u8>>>, p: &Vec<Vec<u8>>) -> (r: bool)
    ensures
        r == holds_path(list@, path_view(p@)),
{
    let mut j: usize = 0;
    while j < list.len()
        invariant
            j <= list@.len(),
            forall|m: int| 0 <= m < j ==> path_view(list@[m]@) != path_view(p@),
        decreases list@.len() - j,
    {
        if paths_equal(&list[j], p) {
            return true;
        }
        j = j + 1;
    }
    false
}

/// The output directories that the files below `src` need, each once: every
/// one of them is the output directory of some such file, and every such file
/// has its output directory among them.
pub fn destination_dirs(files: &Vec<Vec<Vec<u8>>>, src: &Vec<Vec<u8>>, dst: &Vec<Vec<u8>>) -> (r: Vec<
    Vec<Vec<u8>>,
>)
    ensures
        forall|j: int|
            0 <= j < r@.len() ==> needed_dir(
                files@,
                path_view(src@),
                path_view(dst@),
                #[trigger] path_view(r@[j]@),
            ),
        forall|i: int|
            0 <= i < files@.len() && lies_under(path_view(files@[i]@), path_view(src@))
                ==> holds_path(
                r@,
                #[trigger] destination_dir_of(path_view(files@[i]@), path_view(src@), path_view(dst@)),
            ),
        forall|j1: int, j2: int|
            0 <= j1 < j2 < r@.len() ==> #[trigger] path_view(r@[j1]@) != #[trigger] path_view(r@[j2]@),
{
    let ghost s = path_view(src@);
    let ghost t = path_view(dst@);
    let mut r: Vec<Vec<Vec<u8>>> = Vec::new();
    let mut k: usize = 0;
    while k < files.len()
        invariant
            k <= files@.len(),
            s == path_view(src@),
            t == path_view(dst@),
            forall|j: int|
                0 <= j < r@.len() ==> needed_dir(files@.take(k as int), s, t, #[trigger] path_view(r@[j]@)),
            forall|i: int|
                0 <= i < k && lies_under(path_view(files@[i]@), s) ==> holds_path(
                    r@,
                    #[trigger] destination_dir_of(path_view(files@[i]@), s, t),
                ),
            forall|j1: int, j2: int|
                0 <= j1 < j2 < r@.len() ==> #[trigger] path_view(r@[j1]@) != #[trigger] path_view(r@[j2]@),
        decreases files@.len() - k,
    {
        match destination_dir(&files[k], src, dst) {
            None => {},
            Some(d) => {
                if !find_path(&r, &d) {
                    let ghost before = r@;
                    r.push(d);
                    proof {
                        assert(r@[before.len() as int] == d);
                        assert forall|i: int|
                            0 <= i < k && lies_under(path_view(files@[i]@), s) implies holds_path(
                            r@,
                            #[trigger] destination_dir_of(path_view(files@[i]@), s, t),
                        ) by {
                            let w = choose|j: int|
                                0 <= j < before.len() && #[trigger] path_view(before[j]@)
                                    == destination_dir_of(path_view(files@[i]@), s, t);
                            assert(r@[w] == before[w]);
                        }
                        assert(holds_path(r@, path_view(r@[before.len() as int]@)));
                        assert(files@.take(k + 1)[k as int] == files@[k as int]);
                        assert(needed_dir(files@.take(k + 1), s, t, path_view(d@)));
                    }
                }
            },
        }
        proof {
            assert forall|j: int| 0 <= j < r@.len() implies needed_dir(
                files@.take(k + 1),
                s,
                t,
                #[trigger] path_view(r@[j]@),
            ) by {
                if !needed_dir(files@.take(k as int), s, t, path_view(r@[j]@)) {
                    assert(needed_dir(files@.take(k + 1), s, t, path_view(r@[j]@)));
                } else {
                    let i = choose|i: int|
                        0 <= i < k && lies_under(path_view(files@.take(k as int)[i]@), s)
                            && #[trigger] destination_dir_of(
                            path_view(files@.take(k as int)[i]@),
                            s,
                            t,
                        ) == path_view(r@[j]@);
                    assert(files@.take(k + 1)[i] == files@.take(k as int)[i]);
                }
            }
        }
        k = k + 1;
    }
    proof {
        assert forall|j: int|
            0 <= j < r@.len() implies needed_dir(
            files@,
            s,
            t,
            #[trigger] path_view(r@[j]@),
        ) by {
            assert(files@.take(k as int) =~= files@);
        }
    }
    r
}

/// Mirroring: a file found at `src/a/b/c.png` goes to `dst/a/b/c.jpg`, whose
/// directory is `dst/a/b`; nothing of its path but the extension changes.
pub proof fn lemma_destination_mirrors_source(
    file: Seq<Seq<u8>>,
    src: Seq<Seq<u8>>,
    dst: Seq<Seq<u8>>,
)
    requires
        lies_under(file, src),
        is_input_name(file.last()),
    ensures
        destination_of(file, src, dst) is Some,
        ({
            let out = destination_of(file, src, dst)->Some_0;
            &&& out.len() == dst.len() + file.len() - src.len()
            &&& out.take(dst.len() as int) == dst
            &&& out.subrange(dst.len() as int, out.len() - 1) == file.subrange(
                src.len() as int,
                file.len() - 1,
            )
            &&& out.drop_last() == destination_dir_of(file, src, dst)
            &&& out.last() == file.last().take(file.last().len() - 4) + output_suffix()
        }),
{
    let name = file.last();
    let n = name.len() as int;
    assert(name[n - 4] == dot()) by {
        assert(name.subrange(n - 4, n)[0] == input_suffix()[0]);
    }
    assert(name[n - 1] != dot()) by {
        assert(name.subrange(n - 4, n)[3] == input_suffix()[3]);
    }
    assert(name[n - 2] != dot()) by {
        assert(name.subrange(n - 4, n)[2] == input_suffix()[2]);
    }
    assert(name[n - 3] != dot()) by {
        assert(name.subrange(n - 4, n)[1] == input_suffix()[1]);
    }
    assert(last_dot_before(name, n - 3) == n - 4);
    assert(last_dot_before(name, n - 2) == n - 4);
    assert(last_dot_before(name, n - 1) == n - 4);
    assert(last_dot_before(name, n) == n - 4);
    let out = destination_of(file, src, dst)->Some_0;
    let dir = destination_dir_of(file, src, dst);
    assert(out.drop_last() =~= dir);
    assert(out.take(dst.len() as int) =~= dst);
    assert(out.subrange(dst.len() as int, out.len() - 1) =~= file.subrange(
        src.len() as int,
        file.len() - 1,
    ));
}

} // verus!
