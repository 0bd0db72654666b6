//! Where the worker is looked for: candidate paths built from anchor directories and
//! fixed relative layouts, and the choice of the first one that exists.

use vstd::prelude::*;
use crate::platform::{Platform, path_separator, separator};
use crate::text::{decimal, strings_view, u64_to_decimal};

verus! {

/// The anchor directories that candidates are built from.
pub struct Anchors {
    /// The current working directory, where it could be read.
    pub cwd: Option<String>,
    /// The directory of the running executable and its ancestors, nearest first.
    pub exe_dirs: Vec<String>,
    /// The application's resource directory, where it could be resolved.
    pub resource_dir: Option<String>,
}

pub open spec fn optional_base(o: Option<String>) -> Seq<Seq<char>> {
    match o {
        Some(s) => seq![s@],
        None => Seq::empty(),
    }
}

pub open spec fn layouts_view(v: Seq<Vec<String>>) -> Seq<Seq<Seq<char>>> {
    v.map_values(|c: Vec<String>| strings_view(c@))
}

/// `base` joined with the relative component `part`, as `Path::join` does.
pub open spec fn join_path(sep: char, base: Seq<char>, part: Seq<char>) -> Seq<char> {
    if base.len() == 0 {
        part
    } else if base.last() == sep {
        base + part
    } else {
        base.push(sep) + part
    }
}

/// `base` joined with each component of `comps` in turn.
pub open spec fn join_all(sep: char, base: Seq<char>, comps: Seq<Seq<char>>) -> Seq<char>
    decreases comps.len(),
{
    if comps.len() == 0 {
        base
    } else {
        join_path(sep, join_all(sep, base, comps.drop_last()), comps.last())
    }
}

/// Each base in order, joined with each layout in order.
pub open spec fn group(sep: char, bases: Seq<Seq<char>>, layouts: Seq<Seq<Seq<char>>>) -> Seq<
    Seq<char>,
>
    decreases bases.len(),
{
    if bases.len() == 0 {
        Seq::empty()
    } else {
        group(sep, bases.drop_last(), layouts) + layouts.map_values(
            |c: Seq<Seq<char>>| join_all(sep, bases.last(), c),
        )
    }
}

/// `s` with every repeated entry after its first occurrence left out.
pub open spec fn dedup(s: Seq<Seq<char>>) -> Seq<Seq<char>>
    decreases s.len(),
{
    if s.len() == 0 {
        Seq::empty()
    } else if dedup(s.drop_last()).contains(s.last()) {
        dedup(s.drop_last())
    } else {
        dedup(s.drop_last()).push(s.last())
    }
}

pub open spec fn script_layouts() -> Seq<Seq<Seq<char>>> {
    seq![
        seq!["python"@, "asr_service.py"@],
        seq!["_up_"@, "python"@, "asr_service.py"@],
        seq![".."@, "python"@, "asr_service.py"@],
        seq![".."@, "_up_"@, "python"@, "asr_service.py"@],
        seq![".."@, ".."@, "python"@, "asr_service.py"@],
    ]
}

pub open spec fn script_resource_layouts() -> Seq<Seq<Seq<char>>> {
    seq![
        seq!["python"@, "asr_service.py"@],
        seq!["_up_"@, "python"@, "asr_service.py"@],
        seq!["asr_service.py"@],
    ]
}

/// Every place the interpreter script is looked for, in order, before duplicates go.
pub open spec fn script_probe_order(sep: char, cwd: Seq<Seq<char>>, exe_dirs: Seq<Seq<char>>, resource: Seq<Seq<char>>) -> Seq<Seq<char>> {
    group(sep, seq![Seq::empty()], script_layouts()) + group(sep, cwd, script_layouts().take(4))
        + group(sep, exe_dirs, script_layouts().take(4)) + group(sep, resource, script_resource_layouts())
}

pub open spec fn binary_name(p: Platform) -> Seq<char> {
    match p {
        Platform::Windows => "sber-whisper-sidecar.exe"@,
        _ => "sber-whisper-sidecar"@,
    }
}

pub open spec fn sidecar_layouts(bin: Seq<char>) -> Seq<Seq<Seq<char>>> {
    seq![
        seq!["python"@, "dist"@, "sber-whisper-sidecar"@, bin],
        seq!["_up_"@, "python"@, "dist"@, "sber-whisper-sidecar"@, bin],
        seq![".."@, "python"@, "dist"@, "sber-whisper-sidecar"@, bin],
        seq![".."@, "_up_"@, "python"@, "dist"@, "sber-whisper-sidecar"@, bin],
        seq![".."@, ".."@, "python"@, "dist"@, "sber-whisper-sidecar"@, bin],
    ]
}

pub open spec fn sidecar_bundle_layouts(bin: Seq<char>) -> Seq<Seq<Seq<char>>> {
    seq![
        seq!["python"@, "dist"@, "sber-whisper-sidecar"@, bin],
        seq!["_up_"@, "python"@, "dist"@, "sber-whisper-sidecar"@, bin],
        seq!["sber-whisper-sidecar"@, bin],
    ]
}

/// Every place the packaged worker binary is looked for, in order, before duplicates go.
pub open spec fn sidecar_probe_order(p: Platform, cwd: Seq<Seq<char>>, exe_dirs: Seq<Seq<char>>, resource: Seq<Seq<char>>) -> Seq<Seq<char>> {
    let sep = separator(p);
    let bin = binary_name(p);
    group(sep, seq![Seq::empty()], sidecar_layouts(bin)) + group(sep, cwd, sidecar_layouts(bin).take(2))
        + group(sep, resource, sidecar_bundle_layouts(bin)) + group(sep, exe_dirs, sidecar_bundle_layouts(bin))
}

/// The file name of the packaged worker binary on `platform`.
pub fn sidecar_binary_name(platform: Platform) -> (r: &'static str)
    ensures
        r@ == binary_name(platform),
{
    match platform {
        Platform::Windows => "sber-whisper-sidecar.exe",
        _ => "sber-whisper-sidecar",
    }
}

fn join_one(sep: &str, base: &String, part: &String) -> (r: String)
    requires
        sep@.len() == 1,
    ensures
        r@ == join_path(sep@[0], base@, part@),
{
    let n = base.as_str().unicode_len();
    if n == 0 {
        part.clone()
    } else {
        let last = base.as_str().get_char(n - 1);
        let mut out = base.clone();
        if last != sep.get_char(0) {
            out.append(sep);
        }
        out.append(part.as_str());
        proof {
            if base@.last() != sep@[0] {
                assert(base@.push(sep@[0]) =~= base@ + sep@);
            }
        }
        out
    }
}

fn join_components(sep: &str, base: &String, comps: &Vec<String>) -> (r: String)
    requires
        sep@.len() == 1,
    ensures
        r@ == join_all(sep@[0], base@, strings_view(comps@)),
{
    let mut out = base.clone();
    let mut i: usize = 0;
    while i < comps.len()
        invariant
            sep@.len() == 1,
            i <= comps.len(),
            out@ == join_all(sep@[0], base@, strings_view(comps@.take(i as int))),
        decreases comps.len() - i,
    {
        assert(strings_view(comps@.take(i + 1)).drop_last() =~= strings_view(comps@.take(i as int)));
        out = join_one(sep, &out, &comps[i]);
        i = i + 1;
    }
    assert(comps@.take(comps.len() as int) =~= comps@);
    out
}

/// Appends each base joined with each layout.
fn push_group(out: &mut Vec<String>, sep: &str, bases: &Vec<String>, layouts: &Vec<Vec<String>>)
    requires
        sep@.len() == 1,
    ensures
        strings_view(final(out)@) == strings_view(old(out)@) + group(
            sep@[0],
            strings_view(bases@),
            layouts_view(layouts@),
        ),
{
    let ghost start = strings_view(out@);
    let ghost lv = layouts_view(layouts@);
    let mut b: usize = 0;
    while b < bases.len()
        invariant
            sep@.len() == 1,
            b <= bases.len(),
            lv == layouts_view(layouts@),
            strings_view(out@) == start + group(sep@[0], strings_view(bases@.take(b as int)), lv),
        decreases bases.len() - b,
    {
        let ghost mid = strings_view(out@);
        let mut k: usize = 0;
        while k < layouts.len()
            invariant
                sep@.len() == 1,
                b < bases.len(),
                k <= layouts.len(),
                lv == layouts_view(layouts@),
                strings_view(out@) == mid + lv.take(k as int).map_values(
                    |c: Seq<Seq<char>>| join_all(sep@[0], bases@[b as int]@, c),
                ),
            decreases layouts.len() - k,
        {
            let p = join_components(sep, &bases[b], &layouts[k]);
            let ghost prev = out@;
            out.push(p);
            assert(strings_view(out@) =~= strings_view(prev).push(p@));
            assert(lv.take(k + 1).map_values(|c: Seq<Seq<char>>| join_all(sep@[0], bases@[b as int]@, c))
                =~= lv.take(k as int).map_values(|c: Seq<Seq<char>>| join_all(sep@[0], bases@[b as int]@, c)).push(p@));
            k = k + 1;
        }
        assert(lv.take(layouts.len() as int) =~= lv);
        let ghost bs = strings_view(bases@.take(b + 1));
        assert(bs.drop_last() =~= strings_view(bases@.take(b as int)));
        assert(bs.last() == bases@[b as int]@);
        b = b + 1;
    }
    assert(bases@.take(bases.len() as int) =~= bases@);
}

/// The candidates of `raw` in order, each kept only at its first occurrence.
fn dedup_paths(raw: &Vec<String>) -> (r: Vec<String>)
    ensures
        strings_view(r@) == dedup(strings_view(raw@)),
{
    let mut out: Vec<String> = Vec::new();
    let mut i: usize = 0;
    while i < raw.len()
        invariant
            i <= raw.len(),
            strings_view(out@) == dedup(strings_view(raw@.take(i as int))),
        decreases raw.len() - i,
    {
        let ghost sv = strings_view(raw@.take(i + 1));
        assert(sv.drop_last() =~= strings_view(raw@.take(i as int)));
        assert(sv.last() == raw@[i as int]@);
        let mut seen = false;
        let mut j: usize = 0;
        while j < out.len()
            invariant
                i < raw.len(),
                j <= out.len(),
                seen == exists|m: int| 0 <= m < j && #[trigger] strings_view(out@)[m] == raw@[i as int]@,
            decreases out.len() - j,
        {
            assert(strings_view(out@)[j as int] == out@[j as int]@);
            if out[j] == raw[i] {
                seen = true;
            }
            j = j + 1;
        }
        let ghost prev = out@;
        if !seen {
            out.push(raw[i].clone());
            assert(strings_view(out@) =~= strings_view(prev).push(raw@[i as int]@));
        }
        i = i + 1;
    }
    assert(raw@.take(raw.len() as int) =~= raw@);
    out
}

fn opt_bases(o: &Option<String>) -> (r: Vec<String>)
    ensures
        strings_view(r@) == optional_base(*o),
{
    let mut r: Vec<String> = Vec::new();
    match o {
        Some(s) => {
            r.push(s.clone());
        },
        None => {},
    }
    assert(strings_view(r@) =~= optional_base(*o));
    r
}

fn strs(parts: &Vec<&str>) -> (r: Vec<String>)
    ensures
        strings_view(r@) == parts@.map_values(|p: &str| p@),
{
    let mut r: Vec<String> = Vec::new();
    let mut i: usize = 0;
    while i < parts.len()
        invariant
            i <= parts.len(),
            strings_view(r@) == parts@.take(i as int).map_values(|p: &str| p@),
        decreases parts.len() - i,
    {
        let ghost prev = r@;
        r.push(String::from_str(parts[i]));
        assert(strings_view(r@) =~= strings_view(prev).push(parts@[i as int]@));
        assert(parts@.take(i + 1).map_values(|p: &str| p@) =~= parts@.take(i as int).map_values(|p: &str| p@).push(parts@[i as int]@));
        i = i + 1;
    }
    assert(parts@.take(parts.len() as int) =~= parts@);
    r
}

fn script_layout_list() -> (r: Vec<Vec<String>>)
    ensures
        layouts_view(r@) == script_layouts(),
{
    let mut r: Vec<Vec<String>> = Vec::new();
    let c = strs(&vec!["python", "asr_service.py"]);
    assert(strings_view(c@) =~= seq!["python"@, "asr_service.py"@]);
    r.push(c);
    let c = strs(&vec!["_up_", "python", "asr_service.py"]);
    assert(strings_view(c@) =~= seq!["_up_"@, "python"@, "asr_service.py"@]);
    r.push(c);
    let c = strs(&vec!["..", "python", "asr_service.py"]);
    assert(strings_view(c@) =~= seq![".."@, "python"@, "asr_service.py"@]);
    r.push(c);
    let c = strs(&vec!["..", "_up_", "python", "asr_service.py"]);
    assert(strings_view(c@) =~= seq![".."@, "_up_"@, "python"@, "asr_service.py"@]);
    r.push(c);
    let c = strs(&vec!["..", "..", "python", "asr_service.py"]);
    assert(strings_view(c@) =~= seq![".."@, ".."@, "python"@, "asr_service.py"@]);
    r.push(c);
    assert(layouts_view(r@) =~= script_layouts());
    r
}

fn script_resource_layout_list() -> (r: Vec<Vec<String>>)
    ensures
        layouts_view(r@) == script_resource_layouts(),
{
    let mut r: Vec<Vec<String>> = Vec::new();
    let c = strs(&vec!["python", "asr_service.py"]);
    assert(strings_view(c@) =~= seq!["python"@, "asr_service.py"@]);
    r.push(c);
    let c = strs(&vec!["_up_", "python", "asr_service.py"]);
    assert(strings_view(c@) =~= seq!["_up_"@, "python"@, "asr_service.py"@]);
    r.push(c);
    let c = strs(&vec!["asr_service.py"]);
    assert(strings_view(c@) =~= seq!["asr_service.py"@]);
    r.push(c);
    assert(layouts_view(r@) =~= script_resource_layouts());
    r
}

fn sidecar_layout_list(bin: &str) -> (r: Vec<Vec<String>>)
    ensures
        layouts_view(r@) == sidecar_layouts(bin@),
{
    let mut r: Vec<Vec<String>> = Vec::new();
    let c = strs(&vec!["python", "dist", "sber-whisper-sidecar", bin]);
    assert(strings_view(c@) =~= seq!["python"@, "dist"@, "sber-whisper-sidecar"@, bin@]);
    r.push(c);
    let c = strs(&vec!["_up_", "python", "dist", "sber-whisper-sidecar", bin]);
    assert(strings_view(c@) =~= seq!["_up_"@, "python"@, "dist"@, "sber-whisper-sidecar"@, bin@]);
    r.push(c);
    let c = strs(&vec!["..", "python", "dist", "sber-whisper-sidecar", bin]);
    assert(strings_view(c@) =~= seq![".."@, "python"@, "dist"@, "sber-whisper-sidecar"@, bin@]);
    r.push(c);
    let c = strs(&vec!["..", "_up_", "python", "dist", "sber-whisper-sidecar", bin]);
    assert(strings_view(c@) =~= seq![".."@, "_up_"@, "python"@, "dist"@, "sber-whisper-sidecar"@, bin@]);
    r.push(c);
    let c = strs(&vec!["..", "..", "python", "dist", "sber-whisper-sidecar", bin]);
    assert(strings_view(c@) =~= seq![".."@, ".."@, "python"@, "dist"@, "sber-whisper-sidecar"@, bin@]);
    r.push(c);
    assert(layouts_view(r@) =~= sidecar_layouts(bin@));
    r
}

fn sidecar_bundle_layout_list(bin: &str) -> (r: Vec<Vec<String>>)
    ensures
        layouts_view(r@) == sidecar_bundle_layouts(bin@),
{
    let mut r: Vec<Vec<String>> = Vec::new();
    let c = strs(&vec!["python", "dist", "sber-whisper-sidecar", bin]);
    assert(strings_view(c@) =~= seq!["python"@, "dist"@, "sber-whisper-sidecar"@, bin@]);
    r.push(c);
    let c = strs(&vec!["_up_", "python", "dist", "sber-whisper-sidecar", bin]);
    assert(strings_view(c@) =~= seq!["_up_"@, "python"@, "dist"@, "sber-whisper-sidecar"@, bin@]);
    r.push(c);
    let c = strs(&vec!["sber-whisper-sidecar", bin]);
    assert(strings_view(c@) =~= seq!["sber-whisper-sidecar"@, bin@]);
    r.push(c);
    assert(layouts_view(r@) =~= sidecar_bundle_layouts(bin@));
    r
}

fn truncated(v: Vec<Vec<String>>, n: usize) -> (r: Vec<Vec<String>>)
    requires
        n <= v.len(),
    ensures
        layouts_view(r@) == layouts_view(v@).take(n as int),
{
    let ghost before = v@;
    let mut v = v;
    v.truncate(n);
    assert(layouts_view(v@) =~= layouts_view(before).take(n as int));
    v
}

fn relative_base() -> (r: Vec<String>)
    ensures
        strings_view(r@) == seq![Seq::<char>::empty()],
{
    let r = vec![String::new()];
    assert(strings_view(r@) =~= seq![Seq::<char>::empty()]);
    r
}

/// Where the interpreter script may be, in probing order, without repeats.
pub fn script_candidates(platform: Platform, anchors: &Anchors) -> (r: Vec<String>)
    ensures
        strings_view(r@) == dedup(
            script_probe_order(
                separator(platform),
                optional_base(anchors.cwd),
                strings_view(anchors.exe_dirs@),
                optional_base(anchors.resource_dir),
            ),
        ),
{
    let sep = path_separator(platform);
    let mut raw: Vec<String> = Vec::new();
    push_group(&mut raw, sep, &relative_base(), &script_layout_list());
    push_group(&mut raw, sep, &opt_bases(&anchors.cwd), &truncated(script_layout_list(), 4));
    push_group(&mut raw, sep, &anchors.exe_dirs, &truncated(script_layout_list(), 4));
    push_group(&mut raw, sep, &opt_bases(&anchors.resource_dir), &script_resource_layout_list());
    assert(strings_view(raw@) =~= script_probe_order(
        separator(platform),
        optional_base(anchors.cwd),
        strings_view(anchors.exe_dirs@),
        optional_base(anchors.resource_dir),
    ));
    dedup_paths(&raw)
}

/// Where the packaged worker binary may be, in probing order, without repeats.
pub fn sidecar_candidates(platform: Platform, anchors: &Anchors) -> (r: Vec<String>)
    ensures
        strings_view(r@) == dedup(
            sidecar_probe_order(
                platform,
                optional_base(anchors.cwd),
                strings_view(anchors.exe_dirs@),
                optional_base(anchors.resource_dir),
            ),
        ),
{
    let sep = path_separator(platform);
    let bin = sidecar_binary_name(platform);
    let mut raw: Vec<String> = Vec::new();
    push_group(&mut raw, sep, &relative_base(), &sidecar_layout_list(bin));
    push_group(&mut raw, sep, &opt_bases(&anchors.cwd), &truncated(sidecar_layout_list(bin), 2));
    push_group(&mut raw, sep, &opt_bases(&anchors.resource_dir), &sidecar_bundle_layout_list(bin));
    push_group(&mut raw, sep, &anchors.exe_dirs, &sidecar_bundle_layout_list(bin));
    assert(strings_view(raw@) =~= sidecar_probe_order(
        platform,
        optional_base(anchors.cwd),
        strings_view(anchors.exe_dirs@),
        optional_base(anchors.resource_dir),
    ));
    dedup_paths(&raw)
}

/// Whether the probe found candidate `i`; a probe that was not made found nothing.
pub open spec fn found_at(exists: Seq<bool>, i: int) -> bool {
    0 <= i < exists.len() && exists[i]
}

/// The index of the first of `n` candidates that the probe found, if any.
pub fn first_existing(n: usize, exists: &Vec<bool>) -> (r: Option<usize>)
    ensures
        match r {
            Some(i) => i < n && found_at(exists@, i as int) && forall|j: int|
                0 <= j < i ==> !found_at(exists@, j),
            None => forall|j: int| 0 <= j < n ==> !found_at(exists@, j),
        },
{
    let mut i: usize = 0;
    while i < n
        invariant
            i <= n,
            forall|j: int| 0 <= j < i ==> !found_at(exists@, j),
        decreases n - i,
    {
        if i < exists.len() && exists[i] {
            return Some(i);
        }
        i = i + 1;
    }
    None
}

pub open spec fn script_missing_message(checked: nat) -> Seq<char> {
    "python/asr_service.py not found (checked "@ + decimal(checked) + " paths)"@
}

pub open spec fn binary_missing_message(bin: Seq<char>, checked: nat) -> Seq<char> {
    "bundled sidecar binary '"@ + bin + "' not found (checked "@ + decimal(checked) + " paths)"@
}

/// The outcome of probing `candidates` in order: the first that exists, or else
/// `Err` with `on_missing` applied to the number of paths checked.
pub open spec fn probe_outcome(
    candidates: Seq<Seq<char>>,
    exists: Seq<bool>,
    missing: Seq<char>,
) -> Result<Seq<char>, Seq<char>> {
    if exists|i: int| 0 <= i < candidates.len() && found_at(exists, i) {
        let i = choose|i: int|
            0 <= i < candidates.len() && found_at(exists, i) && forall|j: int|
                0 <= j < i ==> !found_at(exists, j);
        Ok(candidates[i])
    } else {
        Err(missing)
    }
}

proof fn lemma_first_is_chosen(candidates: Seq<Seq<char>>, exists: Seq<bool>, missing: Seq<char>, i: int)
    requires
        0 <= i < candidates.len(),
        found_at(exists, i),
        forall|j: int| 0 <= j < i ==> !found_at(exists, j),
    ensures
        probe_outcome(candidates, exists, missing) == Ok::<Seq<char>, Seq<char>>(candidates[i]),
{
    let k = choose|k: int|
        0 <= k < candidates.len() && found_at(exists, k) && forall|j: int|
            0 <= j < k ==> !found_at(exists, j);
    assert(found_at(exists, i));
    if k < i {
        assert(!found_at(exists, k));
    } else if i < k {
        assert(!found_at(exists, i));
    }
}

/// The interpreter script among `candidates`: the first that the probe found (`exists[i]`
/// for candidate `i`), or an error that says how many paths were checked.
pub fn find_python_script(candidates: &Vec<String>, exists: &Vec<bool>) -> (r: Result<String, String>)
    ensures
        r.is_ok() == exists|i: int| 0 <= i < candidates.len() && found_at(exists@, i),
        match r {
            Ok(p) => Ok::<Seq<char>, Seq<char>>(p@) == probe_outcome(
                strings_view(candidates@),
                exists@,
                script_missing_message(candidates.len() as nat),
            ),
            Err(m) => m@ == script_missing_message(candidates.len() as nat),
        },
{
    match first_existing(candidates.len(), exists) {
        Some(i) => {
            proof {
                lemma_first_is_chosen(strings_view(candidates@), exists@, script_missing_message(candidates.len() as nat), i as int);
            }
            Ok(candidates[i].clone())
        },
        None => {
            let mut m = String::from_str("python/asr_service.py not found (checked ");
            m.append(u64_to_decimal(candidates.len() as u64).as_str());
            m.append(" paths)");
            Err(m)
        },
    }
}

/// The packaged worker binary among `candidates`: the first that the probe found, or an
/// error that names the binary and says how many paths were checked.
pub fn find_sidecar_binary(platform: Platform, candidates: &Vec<String>, exists: &Vec<bool>) -> (r: Result<String, String>)
    ensures
        r.is_ok() == exists|i: int| 0 <= i < candidates.len() && found_at(exists@, i),
        match r {
            Ok(p) => Ok::<Seq<char>, Seq<char>>(p@) == probe_outcome(
                strings_view(candidates@),
                exists@,
                binary_missing_message(binary_name(platform), candidates.len() as nat),
            ),
            Err(m) => m@ == binary_missing_message(binary_name(platform), candidates.len() as nat),
        },
{
    match first_existing(candidates.len(), exists) {
        Some(i) => {
            proof {
                lemma_first_is_chosen(
                    strings_view(candidates@),
                    exists@,
                    binary_missing_message(binary_name(platform), candidates.len() as nat),
                    i as int,
                );
            }
            Ok(candidates[i].clone())
        },
        None => {
            let mut m = String::from_str("bundled sidecar binary '");
            m.append(sidecar_binary_name(platform));
            m.append("' not found (checked ");
            m.append(u64_to_decimal(candidates.len() as u64).as_str());
            m.append(" paths)");
            Err(m)
        },
    }
}

} // verus!
