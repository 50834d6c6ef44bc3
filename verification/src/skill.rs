use vstd::prelude::*;
use crate::ai_service::ascii_lower;
use crate::strmap::StrMap;
use crate::text::{chars_of, lines_of, lines_spec, str_eq, string_from_chars, string_from_range, trim, trim_str, views};

verus! {

/// A skill that ships with the application and is not installed yet.
pub struct BundledExternalSkillCandidate {
    pub name: String,
    pub description: String,
}

/// A value without the white space around it and, when it is quoted with
/// `"` or `'` at both ends, without the quotes.
pub open spec fn unquoted(raw: Seq<char>) -> Seq<char> {
    let v = trim(raw);
    if v.len() >= 2 && ((v[0] == '"' && v.last() == '"') || (v[0] == '\'' && v.last() == '\'')) {
        v.subrange(1, v.len() - 1)
    } else {
        v
    }
}

/// A value without its white space and quotes (see `unquoted`).
pub fn unquote(valueRaw: &str) -> (r: String)
    ensures
        r@ == unquoted(valueRaw@),
{
    let value = trim_str(valueRaw);
    let v = chars_of(value.as_str());
    let n = v.len();
    if n >= 2 && ((v[0] == '"' && v[n - 1] == '"') || (v[0] == '\'' && v[n - 1] == '\'')) {
        string_from_range(v.as_slice(), 1, n - 1)
    } else {
        value
    }
}

/// A text in ASCII lower case.
pub open spec fn ascii_lowercase(s: Seq<char>) -> Seq<char> {
    s.map_values(|c: char| ascii_lower(c))
}

/// The first `:` of a text, if any.
pub open spec fn first_colon(s: Seq<char>, k: int) -> bool {
    &&& 0 <= k < s.len()
    &&& s[k] == ':'
    &&& forall|j: int| 0 <= j < k ==> #[trigger] s[j] != ':'
}

/// What one metadata line sets: a `key: value` line whose key (in any
/// case) is `name` or `description` sets that field if it is still blank.
pub open spec fn meta_line(nd: (Seq<char>, Seq<char>), raw: Seq<char>) -> (Seq<char>, Seq<char>) {
    let line = trim(raw);
    if !(exists|k: int| #[trigger] first_colon(line, k)) {
        nd
    } else {
        let k = choose|k: int| #[trigger] first_colon(line, k);
        if k == 0 {
            nd
        } else {
            let key = ascii_lowercase(trim(line.take(k)));
            let value = unquoted(trim(line.skip(k + 1)));
            if key == "name"@ && trim(nd.0).len() == 0 {
                (value, nd.1)
            } else if key == "description"@ && trim(nd.1).len() == 0 {
                (nd.0, value)
            } else {
                nd
            }
        }
    }
}

/// The metadata lines, one after another.
pub open spec fn meta_lines(nd: (Seq<char>, Seq<char>), ls: Seq<Seq<char>>) -> (Seq<char>, Seq<char>)
    decreases ls.len(),
{
    if ls.len() == 0 {
        nd
    } else {
        meta_line(meta_lines(nd, ls.drop_last()), ls.last())
    }
}

/// Where the front matter closes: the first line after the first that is `---`.
pub open spec fn front_matter_end(ls: Seq<Seq<char>>, e: int) -> bool {
    &&& 1 <= e < ls.len()
    &&& trim(ls[e]) == "---"@
    &&& forall|j: int| 1 <= j < e ==> trim(#[trigger] ls[j]) != "---"@
}

/// The name and description of a skill file: from its front matter (between
/// `---` lines) and, for what is still blank, from its first 40 lines.
pub open spec fn skill_metadata(content: Seq<char>) -> (Seq<char>, Seq<char>) {
    let ls = lines_spec(content);
    let empty = (Seq::<char>::empty(), Seq::<char>::empty());
    let front = if ls.len() > 0 && trim(ls[0]) == "---"@ && exists|e: int| #[trigger] front_matter_end(ls, e) {
        let e = choose|e: int| #[trigger] front_matter_end(ls, e);
        meta_lines(empty, ls.subrange(1, e))
    } else {
        empty
    };
    if trim(front.0).len() == 0 || trim(front.1).len() == 0 {
        meta_lines(front, ls.take(if ls.len() < 40 { ls.len() as int } else { 40 }))
    } else {
        front
    }
}

/// A text in ASCII lower case.
fn to_ascii_lowercase(s: &str) -> (r: String)
    ensures
        r@ == ascii_lowercase(s@),
{
    let v = chars_of(s);
    let mut out: Vec<char> = Vec::new();
    let mut i: usize = 0;
    while i < v.len()
        invariant
            i <= v.len(),
            v@ == s@,
            out@ == ascii_lowercase(s@).take(i as int),
        decreases v.len() - i,
    {
        let n = v[i] as u32;
        let c: char = if 65 <= n && n <= 90 { ((n + 32) as u8) as char } else { v[i] };
        proof {
            assert(c == ascii_lower(v@[i as int]));
            assert(ascii_lowercase(s@).take(i + 1) =~= ascii_lowercase(s@).take(i as int).push(c));
        }
        out.push(c);
        i = i + 1;
    }
    assert(ascii_lowercase(s@).take(v.len() as int) =~= ascii_lowercase(s@));
    string_from_chars(out.as_slice())
}

/// Whether a text is blank.
fn blank(s: &String) -> (r: bool)
    ensures
        r == (trim(s@).len() == 0),
{
    trim_str(s.as_str()).as_str().unicode_len() == 0
}

/// Takes in one metadata line (see `meta_line`).
pub fn parseMetadataLine(lineRaw: &str, name: &mut String, description: &mut String)
    ensures
        (final(name)@, final(description)@) == meta_line((old(name)@, old(description)@), lineRaw@),
{
    let line = trim_str(lineRaw);
    let v = chars_of(line.as_str());
    let mut k: usize = 0;
    while k < v.len() && v[k] != ':'
        invariant
            k <= v.len(),
            v@ == line@,
            forall|j: int| 0 <= j < k ==> #[trigger] v@[j] != ':',
        decreases v.len() - k,
    {
        k = k + 1;
    }
    if k == v.len() {
        proof {
            assert forall|j: int| !first_colon(line@, j) by {
                if 0 <= j < line@.len() {
                    assert(v@[j] != ':');
                }
            }
        }
        return;
    }
    proof {
        let c = choose|j: int| #[trigger] first_colon(line@, j);
        assert(first_colon(line@, k as int));
        if c < k {
            assert(v@[c] != ':');
        } else if c > k {
            assert(line@[k as int] != ':');
        }
    }
    if k == 0 {
        return;
    }
    let head = string_from_range(v.as_slice(), 0, k);
    assert(head@ =~= line@.take(k as int));
    let key = to_ascii_lowercase(trim_str(head.as_str()).as_str());
    let tail = string_from_range(v.as_slice(), k + 1, v.len());
    assert(tail@ =~= line@.skip(k + 1));
    let value = unquote(trim_str(tail.as_str()).as_str());
    if str_eq(key.as_str(), "name") && blank(name) {
        *name = value;
    } else if str_eq(key.as_str(), "description") && blank(description) {
        *description = value;
    }
}

/// The name and description of a skill file (see `skill_metadata`).
pub fn parseSkillMetadataContent(content: &str) -> (r: (String, String))
    ensures
        (r.0@, r.1@) == skill_metadata(content@),
{
    let cv = chars_of(content);
    let ls = lines_of(cv.as_slice());
    let ghost lv = views(ls@);
    let mut name = String::new();
    let mut description = String::new();
    let ghost empty = (Seq::<char>::empty(), Seq::<char>::empty());
    if ls.len() > 0 && str_eq(trim_str(string_from_chars(ls[0].as_slice()).as_str()).as_str(), "---") {
        let mut e: usize = 1;
        while e < ls.len() && !str_eq(trim_str(string_from_chars(ls[e].as_slice()).as_str()).as_str(), "---")
            invariant
                1 <= e <= ls.len(),
                lv == views(ls@),
                forall|j: int| 1 <= j < e ==> trim(#[trigger] lv[j]) != "---"@,
            decreases ls.len() - e,
        {
            e = e + 1;
        }
        if e < ls.len() {
            proof {
                assert(front_matter_end(lv, e as int));
                let c = choose|x: int| #[trigger] front_matter_end(lv, x);
                if c < e {
                    assert(trim(lv[c]) != "---"@);
                } else if c > e {
                    assert(trim(lv[e as int]) != "---"@);
                }
                assert(lv.subrange(1, 1).len() == 0);
            }
            let mut i: usize = 1;
            while i < e
                invariant
                    1 <= i <= e,
                    e < ls.len(),
                    lv == views(ls@),
                    (name@, description@) == meta_lines(empty, lv.subrange(1, i as int)),
                decreases e - i,
            {
                let line = string_from_chars(ls[i].as_slice());
                proof {
                    assert(lv.subrange(1, i + 1).drop_last() =~= lv.subrange(1, i as int));
                    assert(lv.subrange(1, i + 1).last() == lv[i as int]);
                }
                parseMetadataLine(line.as_str(), &mut name, &mut description);
                i = i + 1;
            }
        } else {
            proof {
                assert forall|x: int| !front_matter_end(lv, x) by {
                    if 1 <= x < lv.len() {
                        assert(trim(lv[x]) != "---"@);
                    }
                }
            }
        }
    }
    let ghost front = (name@, description@);
    if blank(&name) || blank(&description) {
        let limit: usize = if ls.len() < 40 { ls.len() } else { 40 };
        let mut i: usize = 0;
        assert(lv.take(0).len() == 0);
        while i < limit
            invariant
                i <= limit,
                limit <= ls.len(),
                lv == views(ls@),
                (name@, description@) == meta_lines(front, lv.take(i as int)),
            decreases limit - i,
        {
            let line = string_from_chars(ls[i].as_slice());
            proof {
                assert(lv.take(i + 1).drop_last() =~= lv.take(i as int));
                assert(lv.take(i + 1).last() == lv[i as int]);
            }
            parseMetadataLine(line.as_str(), &mut name, &mut description);
            i = i + 1;
        }
    }
    (name, description)
}

// ----- the installed skills -----

/// An installed skill: its name, what it does, its directory and its skill file.
pub struct SkillPackage {
    pub name: String,
    pub description: String,
    pub directory: String,
    pub skillFile: String,
}

/// What a look into one directory of the skills directory found: its name
/// and path, its skill file (`SKILL.md`, else `skill.md`) if there is one,
/// and the name and description read from it, or why it could not be read.
pub struct ScannedSkillDirectory {
    pub dirName: String,
    pub dirPath: String,
    pub skillFile: Option<String>,
    pub metadata: Result<(String, String), String>,
}

/// The skills found so far (each with the name and path of the directory it
/// came from, its description and its file), and the errors by directory.
pub struct SkillScan {
    pub skills: Map<Seq<char>, (Seq<char>, Seq<char>, Seq<char>, Seq<char>)>,
    pub errors: Map<Seq<char>, Seq<char>>,
}

/// What one directory adds: an error when it has no skill file, when its
/// file cannot be read, or when its skill's name (the directory's when the
/// file names none) is taken; else the skill.
pub open spec fn scan_step(acc: SkillScan, d: ScannedSkillDirectory) -> SkillScan {
    match d.skillFile {
        None => SkillScan {
            errors: acc.errors.insert(d.dirName@, "Missing SKILL.md in "@ + d.dirPath@),
            ..acc
        },
        Some(f) => match d.metadata {
            Err(e) => SkillScan { errors: acc.errors.insert(d.dirName@, "Failed to scan skill: "@ + e@), ..acc },
            Ok((name, desc)) => {
                let skill_name = if trim(name@).len() == 0 { d.dirName@ } else { name@ };
                if acc.skills.contains_key(skill_name) {
                    SkillScan {
                        errors: acc.errors.insert(
                            d.dirName@,
                            "Duplicate scanned skill name: "@ + skill_name + " already loaded from "@ + acc.skills[skill_name].0,
                        ),
                        ..acc
                    }
                } else {
                    SkillScan { skills: acc.skills.insert(skill_name, (d.dirName@, desc@, d.dirPath@, f@)), ..acc }
                }
            },
        },
    }
}

/// The directories, one after another.
pub open spec fn scan_all(ds: Seq<ScannedSkillDirectory>) -> SkillScan
    decreases ds.len(),
{
    if ds.len() == 0 {
        SkillScan { skills: Map::empty(), errors: Map::empty() }
    } else {
        scan_step(scan_all(ds.drop_last()), ds.last())
    }
}

/// A skill as plain values: its description, directory and file.
pub open spec fn skill_entry(p: (Seq<char>, Seq<char>, Seq<char>, Seq<char>)) -> (Seq<char>, Seq<char>, Seq<char>) {
    (p.1, p.2, p.3)
}

/// The skills of a scan as plain values.
pub open spec fn scan_skills(sc: SkillScan) -> Map<Seq<char>, (Seq<char>, Seq<char>, Seq<char>)> {
    Map::new(|k: Seq<char>| sc.skills.contains_key(k), |k: Seq<char>| skill_entry(sc.skills[k]))
}

/// The directory each skill of a scan came from.
pub open spec fn scan_origins(sc: SkillScan) -> Map<Seq<char>, Seq<char>> {
    Map::new(|k: Seq<char>| sc.skills.contains_key(k), |k: Seq<char>| sc.skills[k].0)
}

/// Installed skills as plain values.
pub open spec fn skills_of(m: StrMap<SkillPackage>) -> Map<Seq<char>, (Seq<char>, Seq<char>, Seq<char>)> {
    Map::new(
        |k: Seq<char>| m.get_spec(k) is Some,
        |k: Seq<char>| (m.get_spec(k).unwrap().description@, m.get_spec(k).unwrap().directory@, m.get_spec(k).unwrap().skillFile@),
    )
}

/// Texts by key as plain values.
pub open spec fn texts_of(m: StrMap<String>) -> Map<Seq<char>, Seq<char>> {
    Map::new(|k: Seq<char>| m.get_spec(k) is Some, |k: Seq<char>| m.get_spec(k).unwrap()@)
}

/// The installed skills and the errors met, from what a look into each
/// directory of the skills directory found (see `scan_step`).
pub fn skills_from_scan(dirs: &Vec<ScannedSkillDirectory>) -> (r: (StrMap<SkillPackage>, StrMap<String>))
    ensures
        r.0.wf(),
        r.1.wf(),
        skills_of(r.0) == scan_skills(scan_all(dirs@)),
        texts_of(r.1) == scan_all(dirs@).errors,
{
    let mut skills: StrMap<SkillPackage> = StrMap::new();
    let mut origins: StrMap<String> = StrMap::new();
    let mut errors: StrMap<String> = StrMap::new();
    let ghost ds = dirs@;
    proof {
        assert(ds.take(0) =~= Seq::<ScannedSkillDirectory>::empty());
        assert(skills_of(skills) =~= scan_skills(scan_all(ds.take(0))));
        assert(texts_of(origins) =~= scan_origins(scan_all(ds.take(0))));
        assert(texts_of(errors) =~= scan_all(ds.take(0)).errors);
    }
    let mut i: usize = 0;
    while i < dirs.len()
        invariant
            i <= dirs.len(),
            ds == dirs@,
            skills.wf(),
            origins.wf(),
            errors.wf(),
            skills_of(skills) == scan_skills(scan_all(ds.take(i as int))),
            texts_of(origins) == scan_origins(scan_all(ds.take(i as int))),
            texts_of(errors) == scan_all(ds.take(i as int)).errors,
        decreases dirs.len() - i,
    {
        let ghost sc = scan_all(ds.take(i as int));
        let d = &dirs[i];
        proof {
            assert(ds.take(i + 1).drop_last() =~= ds.take(i as int));
            assert(ds.take(i + 1).last() == *d);
        }
        match &d.skillFile {
            None => {
                let mut m = String::from_str("Missing SKILL.md in ");
                m.append(d.dirPath.as_str());
                errors.insert(d.dirName.clone(), m);
                proof {
                    assert(texts_of(errors) =~= scan_all(ds.take(i + 1)).errors);
                }
            },
            Some(f) => match &d.metadata {
                Err(e) => {
                    let mut m = String::from_str("Failed to scan skill: ");
                    m.append(e.as_str());
                    errors.insert(d.dirName.clone(), m);
                    proof {
                        assert(texts_of(errors) =~= scan_all(ds.take(i + 1)).errors);
                    }
                },
                Ok((name, desc)) => {
                    let skill_name = if blank(name) { d.dirName.clone() } else { name.clone() };
                    match origins.get(skill_name.as_str()) {
                        Some(existing) => {
                            proof {
                                assert(texts_of(origins).contains_key(skill_name@));
                                assert(sc.skills.contains_key(skill_name@));
                            }
                            let mut m = String::from_str("Duplicate scanned skill name: ");
                            m.append(skill_name.as_str());
                            m.append(" already loaded from ");
                            m.append(existing.as_str());
                            errors.insert(d.dirName.clone(), m);
                            proof {
                                assert(texts_of(origins)[skill_name@] == existing@);
                                assert(texts_of(errors) =~= scan_all(ds.take(i + 1)).errors);
                            }
                        },
                        None => {
                            proof {
                                assert(!texts_of(origins).contains_key(skill_name@));
                                assert(!sc.skills.contains_key(skill_name@));
                            }
                            skills.insert(
                                skill_name.clone(),
                                SkillPackage {
                                    name: skill_name.clone(),
                                    description: desc.clone(),
                                    directory: d.dirPath.clone(),
                                    skillFile: f.clone(),
                                },
                            );
                            origins.insert(skill_name.clone(), d.dirName.clone());
                            proof {
                                let sn = skill_name@;
                                let nsc = scan_all(ds.take(i + 1));
                                assert(nsc == scan_step(sc, *d));
                                assert(nsc.skills == sc.skills.insert(sn, (d.dirName@, desc@, d.dirPath@, f@)));
                                assert(nsc.errors == sc.errors);
                                assert forall|k: Seq<char>| #[trigger] skills_of(skills).contains_key(k)
                                    == scan_skills(nsc).contains_key(k) by {
                                    if k != sn {
                                        assert(skills_of(skills).contains_key(k) == scan_skills(sc).contains_key(k));
                                    }
                                }
                                assert(skills.get_spec(sn) is Some);
                                assert(skills.get_spec(sn).unwrap().description@ == desc@);
                                assert(skills.get_spec(sn).unwrap().directory@ == d.dirPath@);
                                assert(skills.get_spec(sn).unwrap().skillFile@ == f@);
                                assert(skills_of(skills)[sn] == (desc@, d.dirPath@, f@));
                                assert(scan_skills(nsc)[sn] == (desc@, d.dirPath@, f@));
                                assert forall|k: Seq<char>| skills_of(skills).contains_key(k)
                                    implies #[trigger] skills_of(skills)[k] == scan_skills(nsc)[k] by {
                                    if k != sn {
                                        assert(skills_of(skills)[k] == scan_skills(sc)[k]);
                                    }
                                }
                                assert(skills_of(skills) =~= scan_skills(nsc));
                                assert(origins.get_spec(sn) is Some);
                                assert(texts_of(origins)[sn] == d.dirName@);
                                assert forall|k: Seq<char>| #[trigger] texts_of(origins).contains_key(k)
                                    == scan_origins(nsc).contains_key(k) by {
                                    if k != sn {
                                        assert(texts_of(origins).contains_key(k) == scan_origins(sc).contains_key(k));
                                    }
                                }
                                assert forall|k: Seq<char>| texts_of(origins).contains_key(k)
                                    implies #[trigger] texts_of(origins)[k] == scan_origins(nsc)[k] by {
                                    if k != sn {
                                        assert(texts_of(origins)[k] == scan_origins(sc)[k]);
                                    }
                                }
                                assert(texts_of(origins) =~= scan_origins(nsc));
                            }
                        },
                    }
                },
            },
        }
        i = i + 1;
    }
    assert(ds.take(dirs.len() as int) =~= ds);
    (skills, errors)
}

/// The prompt that puts a skill to use: its name, the time, the execution
/// policy, its description (when not blank), where it is, its directory
/// tree and its skill file.
pub open spec fn skill_prompt(skill: &SkillPackage, use_time: Seq<char>, tree: Seq<char>, content: Seq<char>) -> Seq<char> {
    "Using package (Skill): "@ + skill.name@ + "\n"@ + "Use Time: "@ + use_time + "\n"@ + "Execution policy:\n"@
        + "Prioritize using the skill-provided instructions and bundled scripts, and complete tasks with terminal-related tools.\n"@
        + (if trim(skill.description@).len() > 0 { "Description: "@ + skill.description@ + "\n"@ } else { Seq::empty() })
        + "SKILL.md path: "@ + skill.skillFile@ + "\n"@ + "Skill directory: "@ + skill.directory@ + "\n"@
        + "Directory structure:\n"@ + tree + "\n\nSKILL.md:\n"@ + content + "\n"@
}

/// The prompt of an installed skill (see `skill_prompt`), given the time,
/// its directory tree and its skill file's text; nothing for a skill that
/// is not installed.
pub fn getSkillSystemPrompt(
    skills: &StrMap<SkillPackage>,
    skillName: &str,
    use_time: &str,
    tree: &str,
    content: &str,
) -> (r: Option<String>)
    requires
        skills.wf(),
    ensures
        match skills.get_spec(skillName@) {
            Some(skill) => r matches Some(p) && p@ == skill_prompt(&skill, use_time@, tree@, content@),
            None => r is None,
        },
{
    let skill = match skills.get(skillName) {
        Some(s) => s,
        None => {
            return None;
        },
    };
    let mut prompt = String::from_str("Using package (Skill): ");
    prompt.append(skill.name.as_str());
    prompt.append("\n");
    prompt.append("Use Time: ");
    prompt.append(use_time);
    prompt.append("\n");
    prompt.append("Execution policy:\n");
    prompt.append("Prioritize using the skill-provided instructions and bundled scripts, and complete tasks with terminal-related tools.\n");
    let ghost head = prompt@;
    if !blank(&skill.description) {
        prompt.append("Description: ");
        prompt.append(skill.description.as_str());
        prompt.append("\n");
    }
    prompt.append("SKILL.md path: ");
    prompt.append(skill.skillFile.as_str());
    prompt.append("\n");
    prompt.append("Skill directory: ");
    prompt.append(skill.directory.as_str());
    prompt.append("\n");
    prompt.append("Directory structure:\n");
    prompt.append(tree);
    prompt.append("\n\nSKILL.md:\n");
    prompt.append(content);
    prompt.append("\n");
    assert(prompt@ =~= skill_prompt(skill, use_time@, tree@, content@));
    Some(prompt)
}

// ----- skills that ship with the program -----

/// A file of a skill that ships with the program: the skill it belongs to,
/// its path inside the skill, and its text.
pub struct BundledSkillAsset {
    pub skill_name: String,
    pub path: String,
    pub content: String,
}

/// Whether a path names a skill's `SKILL.md` (in any ASCII case).
pub open spec fn is_skill_file(path: Seq<char>) -> bool {
    crate::ai_service::eq_ignore_ascii_case(path, "SKILL.md"@)
}

/// Whether asset `k` is the first `SKILL.md` of the skill named `n`.
pub open spec fn first_skill_file(assets: Seq<BundledSkillAsset>, n: Seq<char>, k: int) -> bool {
    &&& 0 <= k < assets.len()
    &&& assets[k].skill_name@ == n && is_skill_file(assets[k].path@)
    &&& forall|j: int| 0 <= j < k ==> !((#[trigger] assets[j]).skill_name@ == n && is_skill_file(assets[j].path@))
}

/// The name and description offered for the skill named `n`: from the
/// metadata of its first `SKILL.md` (its name when that is not blank, else
/// `n`), or `n` with no description when it has none.
pub open spec fn candidate_of(assets: Seq<BundledSkillAsset>, n: Seq<char>) -> (Seq<char>, Seq<char>) {
    if exists|k: int| #[trigger] first_skill_file(assets, n, k) {
        let k = choose|k: int| #[trigger] first_skill_file(assets, n, k);
        let meta = skill_metadata(assets[k].content@);
        (if trim(meta.0).len() == 0 { n } else { meta.0 }, meta.1)
    } else {
        (n, Seq::empty())
    }
}

/// Whether `ks` lists the skill names of the assets, each once, ascending.
pub open spec fn skill_names_ascending(ks: Seq<Seq<char>>, assets: Seq<BundledSkillAsset>) -> bool {
    &&& forall|i: int, j: int| 0 <= i < j < ks.len() ==> crate::strmap::lex_lt(#[trigger] ks[i], #[trigger] ks[j])
    &&& forall|n: Seq<char>| ks.contains(n) <==> exists|k: int| 0 <= k < assets.len() && (#[trigger] assets[k]).skill_name@ == n
}

/// The candidates for the skill names `ks`, in their order.
pub open spec fn candidates_of(assets: Seq<BundledSkillAsset>, ks: Seq<Seq<char>>) -> Seq<(Seq<char>, Seq<char>)> {
    ks.map_values(|n: Seq<char>| candidate_of(assets, n))
}

/// The candidates that are not installed yet, in the order of the names.
pub open spec fn not_installed(cs: Seq<(Seq<char>, Seq<char>)>, installed: StrMap<SkillPackage>) -> Seq<(Seq<char>, Seq<char>)>
    decreases cs.len(),
{
    if cs.len() == 0 {
        Seq::empty()
    } else {
        not_installed(cs.drop_last(), installed) + if installed.get_spec(cs.last().0) is Some {
            Seq::empty()
        } else {
            seq![cs.last()]
        }
    }
}

/// The candidates as plain values.
pub open spec fn candidate_views(cs: Seq<BundledExternalSkillCandidate>) -> Seq<(Seq<char>, Seq<char>)> {
    cs.map_values(|c: BundledExternalSkillCandidate| (c.name@, c.description@))
}

fn candidate_for(assets: &Vec<BundledSkillAsset>, n: &String) -> (r: (String, String))
    ensures
        (r.0@, r.1@) == candidate_of(assets@, n@),
{
    proof {
        reveal_strlit("SKILL.md");
    }
    let mut k: usize = 0;
    while k < assets.len()
        invariant
            k <= assets.len(),
            forall|j: int| 0 <= j < k ==> !((#[trigger] assets@[j]).skill_name@ == n@ && is_skill_file(assets@[j].path@)),
        decreases assets.len() - k,
    {
        if str_eq(assets[k].skill_name.as_str(), n.as_str())
            && crate::ai_service::eq_ignore_case(assets[k].path.as_str(), "SKILL.md")
        {
            assert(first_skill_file(assets@, n@, k as int));
            proof {
                let c = choose|c: int| #[trigger] first_skill_file(assets@, n@, c);
                if c < k {
                    assert(!((assets@[c]).skill_name@ == n@ && is_skill_file(assets@[c].path@)));
                }
                if k < c {
                    assert(!((assets@[k as int]).skill_name@ == n@ && is_skill_file(assets@[k as int].path@)));
                }
            }
            let (meta_name, meta_description) = parseSkillMetadataContent(assets[k].content.as_str());
            let name = if trim_str(meta_name.as_str()).unicode_len() == 0 {
                n.clone()
            } else {
                meta_name
            };
            return (name, meta_description);
        }
        k = k + 1;
    }
    assert forall|c: int| !first_skill_file(assets@, n@, c) by {}
    (n.clone(), String::new())
}

/// The skills that ship with the program and are not installed: one per
/// skill name, ascending by name, with the name and description its
/// `SKILL.md` gives.
#[allow(non_snake_case)]
pub fn getBundledExternalSkillCandidates(
    assets: &Vec<BundledSkillAsset>,
    installed: &StrMap<SkillPackage>,
) -> (r: Vec<BundledExternalSkillCandidate>)
    requires
        installed.wf(),
    ensures
        exists|ks: Seq<Seq<char>>| skill_names_ascending(ks, assets@) && candidate_views(r@) == not_installed(
            candidates_of(assets@, ks),
            *installed,
        ),
{
    let mut names: StrMap<bool> = StrMap::new();
    let mut i: usize = 0;
    while i < assets.len()
        invariant
            i <= assets.len(),
            names.wf(),
            forall|n: Seq<char>| #[trigger] names.get_spec(n) is Some <==> exists|k: int| 0 <= k < i && (#[trigger] assets@[k]).skill_name@ == n,
        decreases assets.len() - i,
    {
        names.insert(assets[i].skill_name.clone(), true);
        proof {
            assert forall|n: Seq<char>| #[trigger] names.get_spec(n) is Some <==> exists|k: int| 0 <= k < i + 1 && (#[trigger] assets@[k]).skill_name@ == n by {
                if n == assets@[i as int].skill_name@ {
                    assert(assets@[i as int].skill_name@ == n);
                }
            }
        }
        i = i + 1;
    }
    let keys = names.keys();
    let ghost ks = names.keys_view();
    proof {
        let ev = names.entries_view();
        assert forall|a: int, b: int| 0 <= a < b < ks.len() implies crate::strmap::lex_lt(#[trigger] ks[a], #[trigger] ks[b]) by {
            assert(ks[a] == ev[a].0);
            assert(ks[b] == ev[b].0);
        }
        assert forall|n: Seq<char>| ks.contains(n) <==> exists|k: int| 0 <= k < assets@.len() && (#[trigger] assets@[k]).skill_name@ == n by {
            crate::strmap::lemma_lookup_some(ev, n);
            if ks.contains(n) {
                let j = choose|j: int| 0 <= j < ks.len() && ks[j] == n;
                assert(ev[j].0 == n);
            }
            if names.get_spec(n) is Some {
                let j = choose|j: int| 0 <= j < ev.len() && #[trigger] ev[j].0 == n;
                assert(ks[j] == n);
            }
        }
    }
    let ghost cs = candidates_of(assets@, ks);
    let mut out: Vec<BundledExternalSkillCandidate> = Vec::new();
    let mut j: usize = 0;
    while j < keys.len()
        invariant
            j <= keys.len(),
            crate::text::str_views(keys@) == ks,
            cs == candidates_of(assets@, ks),
            skill_names_ascending(ks, assets@),
            installed.wf(),
            candidate_views(out@) == not_installed(cs.take(j as int), *installed),
        decreases keys.len() - j,
    {
        let (name, description) = candidate_for(assets, &keys[j]);
        proof {
            assert(cs.take(j + 1).drop_last() =~= cs.take(j as int));
            assert(cs.take(j + 1).last() == cs[j as int]);
            assert(keys@[j as int]@ == ks[j as int]);
        }
        let ghost before = candidate_views(out@);
        if !installed.contains_key(name.as_str()) {
            let c = BundledExternalSkillCandidate { name, description };
            out.push(c);
            assert(candidate_views(out@) =~= before.push((c.name@, c.description@)));
        }
        j = j + 1;
    }
    assert(cs.take(keys.len() as int) =~= cs);
    assert(skill_names_ascending(ks, assets@) && candidate_views(out@) == not_installed(candidates_of(assets@, ks), *installed));
    out
}

/// Whether a path names a file inside a skill: not absolute, no segment is
/// `..`, and it does not start with a `.` segment (empty and other `.`
/// segments are dropped).
pub open spec fn asset_path_ok(p: Seq<char>) -> bool {
    let segs = crate::text::split_on(p, '/');
    &&& !(p.len() > 0 && p[0] == '/')
    &&& forall|i: int| 0 <= i < segs.len() ==> #[trigger] segs[i] != seq!['.', '.']
    &&& segs[0] != seq!['.']
}

/// The parts of a path that name directories and the file: its segments
/// without the empty ones and the `.` ones.
pub open spec fn normal_parts(segs: Seq<Seq<char>>) -> Seq<Seq<char>>
    decreases segs.len(),
{
    if segs.len() == 0 {
        Seq::empty()
    } else {
        normal_parts(segs.drop_last()) + if segs.last().len() == 0 || segs.last() == seq!['.'] {
            Seq::<Seq<char>>::empty()
        } else {
            seq![segs.last()]
        }
    }
}

/// A bundled asset's path within its skill, normalized; a path that is
/// absolute, climbs out, or names nothing is refused.
pub open spec fn asset_path_spec(p: Seq<char>) -> Result<Seq<char>, Seq<char>> {
    let parts = normal_parts(crate::text::split_on(p, '/'));
    if asset_path_ok(p) && parts.len() > 0 {
        Ok(crate::text::join_spec(parts, seq!['/']))
    } else {
        Err("Invalid plugin type asset path: "@ + p)
    }
}

/// A bundled asset's path within its skill.
#[allow(non_snake_case)]
pub fn normalizeAssetRelativePath(path: &str) -> (r: Result<String, String>)
    ensures
        match r {
            Ok(p) => asset_path_spec(path@) == Ok::<Seq<char>, Seq<char>>(p@),
            Err(e) => asset_path_spec(path@) == Err::<Seq<char>, Seq<char>>(e@),
        },
{
    proof {
        reveal_strlit("Invalid plugin type asset path: ");
    }
    let v = chars_of(path);
    let segs = crate::text::split_chars(v.as_slice(), '/');
    let ghost sv = views(segs@);
    let mut ok = !(v.len() > 0 && v[0] == '/');
    proof {
        crate::text::lemma_split_on_nonempty(v@, '/');
    }
    if segs[0].len() == 1 && segs[0][0] == '.' {
        assert(sv[0] =~= seq!['.']);
        ok = false;
    } else {
        assert(sv[0] != seq!['.']) by {
            if sv[0].len() == 1 {
                assert(sv[0][0] == segs@[0]@[0]);
            }
        }
    }
    let mut parts: Vec<String> = Vec::new();
    let mut i: usize = 0;
    while i < segs.len()
        invariant
            i <= segs.len(),
            sv == views(segs@),
            sv.len() > 0,
            ok == (!(v@.len() > 0 && v@[0] == '/') && sv[0] != seq!['.']
                && forall|k: int| 0 <= k < i ==> #[trigger] sv[k] != seq!['.', '.']),
            crate::text::str_views(parts@) == normal_parts(sv.take(i as int)),
        decreases segs.len() - i,
    {
        let s = &segs[i];
        let is_up = s.len() == 2 && s[0] == '.' && s[1] == '.';
        let is_dot = s.len() == 1 && s[0] == '.';
        proof {
            assert(sv.take(i + 1).drop_last() =~= sv.take(i as int));
            assert(sv.take(i + 1).last() == sv[i as int]);
            if is_up {
                assert(sv[i as int] =~= seq!['.', '.']);
            } else {
                assert(sv[i as int] != seq!['.', '.']) by {
                    if sv[i as int].len() == 2 {
                        assert(sv[i as int][0] == s@[0] && sv[i as int][1] == s@[1]);
                    }
                }
            }
            if is_dot {
                assert(sv[i as int] =~= seq!['.']);
            } else {
                assert(sv[i as int] != seq!['.']) by {
                    if sv[i as int].len() == 1 {
                        assert(sv[i as int][0] == s@[0]);
                    }
                }
            }
        }
        if is_up {
            ok = false;
        }
        let ghost before = parts@;
        if s.len() > 0 && !is_dot {
            let part = string_from_chars(s.as_slice());
            parts.push(part);
            assert(crate::text::str_views(parts@) =~= crate::text::str_views(before).push(part@));
        } else {
            assert(crate::text::str_views(parts@) =~= crate::text::str_views(before) + Seq::<Seq<char>>::empty());
        }
        i = i + 1;
    }
    assert(sv.take(segs.len() as int) =~= sv);
    if ok && parts.len() > 0 {
        proof {
            reveal_strlit("/");
            assert("/"@ =~= seq!['/']);
        }
        let joined = crate::tui::join_strings(&parts, "/");
        assert(asset_path_ok(path@));
        assert(normal_parts(crate::text::split_on(path@, '/')).len() > 0);
        Ok(joined)
    } else {
        let mut e = String::from_str("Invalid plugin type asset path: ");
        e.append(path);
        Err(e)
    }
}

// ----- importing a skill from a zip file -----

/// The folder inside the zip to import from, as the user gave it: trimmed,
/// without slashes at either end; none when nothing is left.
pub open spec fn import_subdir_spec(sub: Option<Seq<char>>) -> Option<Seq<char>> {
    match sub {
        Some(v) => {
            let t = crate::markdown::strip_trail(crate::markdown::strip_lead(trim(v), '/'), '/');
            if t.len() == 0 { None } else { Some(t) }
        },
        None => None,
    }
}

/// The folder inside the zip to import from.
pub fn normalize_import_subdir(sub: Option<&str>) -> (r: Option<String>)
    ensures
        crate::prompt::opt_view(r) == import_subdir_spec(match sub { Some(v) => Some(v@), None => None }),
{
    match sub {
        Some(v) => {
            let t = trim_str(v);
            let tv = chars_of(t.as_str());
            let inner = crate::markdown::strip_bars_of(tv.as_slice(), '/');
            if inner.len() == 0 {
                None
            } else {
                Some(string_from_chars(inner.as_slice()))
            }
        },
        None => None,
    }
}

/// The folder name an imported skill gets: its metadata name (trimmed) when
/// there is one; else the zip file's name when the skill file lies at the
/// zip's top, else the name of the skill file's folder when it is not blank,
/// else the zip file's name; `skill` when nothing else is left. The name is
/// trimmed.
pub open spec fn import_dir_name_spec(
    meta_name: Seq<char>,
    at_zip_top: bool,
    dir_name: Option<Seq<char>>,
    zip_stem: Option<Seq<char>>,
) -> Seq<char> {
    let stem = match zip_stem { Some(z) => z, None => "skill"@ };
    let base = if trim(meta_name).len() > 0 {
        trim(meta_name)
    } else if at_zip_top {
        stem
    } else {
        match dir_name {
            Some(d) => if trim(d).len() > 0 { d } else { stem },
            None => stem,
        }
    };
    if trim(base).len() == 0 { "skill"@ } else { trim(base) }
}

/// The folder name an imported skill gets.
pub fn import_dir_name(meta_name: &str, at_zip_top: bool, dir_name: Option<String>, zip_stem: Option<String>) -> (r: String)
    ensures
        r@ == import_dir_name_spec(meta_name@, at_zip_top, crate::prompt::opt_view(dir_name), crate::prompt::opt_view(zip_stem)),
{
    proof {
        reveal_strlit("skill");
    }
    let stem = match zip_stem {
        Some(z) => z,
        None => String::from_str("skill"),
    };
    let meta = trim_str(meta_name);
    let base = if meta.unicode_len() > 0 {
        meta
    } else if at_zip_top {
        stem
    } else {
        match dir_name {
            Some(d) => if trim_str(d.as_str()).unicode_len() > 0 { d } else { stem },
            None => stem,
        }
    };
    let t = trim_str(base.as_str());
    if t.unicode_len() == 0 {
        String::from_str("skill")
    } else {
        t
    }
}

/// What an import answers when no skill file was found.
pub open spec fn no_skill_file_message(with_subdir: bool) -> Seq<char> {
    if with_subdir {
        "No SKILL.md found in the selected import path"@
    } else {
        "No SKILL.md found in the imported zip"@
    }
}

/// What an import answers when no skill file was found.
pub fn no_skill_file_text(with_subdir: bool) -> (r: String)
    ensures
        r@ == no_skill_file_message(with_subdir),
{
    if with_subdir {
        String::from_str("No SKILL.md found in the selected import path")
    } else {
        String::from_str("No SKILL.md found in the imported zip")
    }
}

/// What a successful import answers: the folder name, and the description
/// when it is not blank.
pub open spec fn imported_message(dir_name: Seq<char>, description: Seq<char>) -> Seq<char> {
    if trim(description).len() == 0 {
        "Imported skill: "@ + dir_name
    } else {
        "Imported skill: "@ + dir_name + " - "@ + description
    }
}

/// What a successful import answers.
pub fn imported_text(dir_name: &str, description: &str) -> (r: String)
    ensures
        r@ == imported_message(dir_name@, description@),
{
    proof {
        reveal_strlit("Imported skill: ");
        reveal_strlit(" - ");
    }
    let mut out = String::from_str("Imported skill: ");
    out.append(dir_name);
    if trim_str(description).unicode_len() > 0 {
        out.append(" - ");
        out.append(description);
    }
    out
}

} // verus!
