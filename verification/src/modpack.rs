//! The mod-package scaffold: validation of the creation form and the plan
//! of directories and manifest to create.
//!
//! The plan is pure: it names the mod root, its three override
//! subdirectories, and the manifest file with its full text.  Creating the
//! directories and writing the file is the caller's part, as is reporting
//! any filesystem failure through the message queue.

use vstd::prelude::*;
use crate::bean::{ModData, ModDataV};
use crate::codec::{WireSpec, WireExec};
use crate::data::MessageQueue;

verus! {

/// Whitespace, as the validation understands it.
pub open spec fn is_space(c: char) -> bool {
    c == ' ' || c == '\t' || c == '\n' || c == '\r'
}

/// A text that holds nothing but whitespace.
pub open spec fn is_blank(s: Seq<char>) -> bool {
    forall|i: int| 0 <= i < s.len() ==> is_space(#[trigger] s[i])
}

/// Does this text hold nothing but whitespace?
pub fn blank(s: &str) -> (r: bool)
    ensures
        r == is_blank(s@),
{
    let cs = crate::text::chars_of(s);
    let mut k: usize = 0;
    while k < cs.len()
        invariant
            0 <= k <= cs@.len(),
            cs@ == s@,
            forall|i: int| 0 <= i < k ==> is_space(#[trigger] cs@[i]),
        decreases cs@.len() - k,
    {
        let c = cs[k];
        if !(c == ' ' || c == '\t' || c == '\n' || c == '\r') {
            return false;
        }
        k += 1;
    }
    true
}

/// The message that blocks an invalid creation form, in the order the
/// conditions are checked: name, then description, then the subsystem
/// flags, then the workspace.
pub open spec fn validation_message(
    name: Seq<char>,
    desc: Seq<char>,
    units: bool,
    tapes: bool,
    enemies: bool,
    has_workspace: bool,
) -> Seq<char> {
    if is_blank(name) {
        "MOD名称不能为空"@
    } else if is_blank(desc) {
        "MOD描述不能为空"@
    } else if !(units || tapes || enemies) {
        "至少选择一个修改选项"@
    } else {
        "请先选择工作区"@
    }
}

/// Check the creation form before any scaffold work.
///
/// The form passes exactly when the name and the description are not blank,
/// at least one subsystem flag is set, and a workspace is selected.  A
/// failing form appends exactly one message, for the first failing
/// condition; a passing form appends nothing.
pub fn validate_mod_creation(
    name: &str,
    desc: &str,
    units: bool,
    tapes: bool,
    enemies: bool,
    has_workspace: bool,
    messages: &mut MessageQueue,
) -> (ok: bool)
    ensures
        ok == (!is_blank(name@) && !is_blank(desc@) && (units || tapes || enemies)
            && has_workspace),
        ok ==> final(messages)@ == old(messages)@,
        !ok ==> final(messages)@ == old(messages)@.push(
            validation_message(name@, desc@, units, tapes, enemies, has_workspace),
        ),
{
    if blank(name) {
        messages.push_back("MOD名称不能为空".to_owned());
        false
    } else if blank(desc) {
        messages.push_back("MOD描述不能为空".to_owned());
        false
    } else if !(units || tapes || enemies) {
        messages.push_back("至少选择一个修改选项".to_owned());
        false
    } else if !has_workspace {
        messages.push_back("请先选择工作区".to_owned());
        false
    } else {
        true
    }
}

/// A path separator of either convention.
pub open spec fn is_sep(c: char) -> bool {
    c == '/' || c == '\\'
}

/// The position of the last path separator, if any.
pub open spec fn last_sep(s: Seq<char>) -> Option<int>
    decreases s.len(),
{
    if s.len() == 0 {
        None
    } else if is_sep(s.last()) {
        Some(s.len() - 1)
    } else {
        last_sep(s.drop_last())
    }
}

/// The directory above the named one: everything before the last separator.
pub open spec fn parent_of(s: Seq<char>) -> Option<Seq<char>> {
    match last_sep(s) {
        Some(i) => Some(s.subrange(0, i)),
        None => None,
    }
}

/// Find the last path separator, exactly as [`last_sep`] does.
fn find_last_sep(cs: &Vec<char>) -> (r: Option<usize>)
    ensures
        match r {
            Some(i) => last_sep(cs@) == Some(i as int) && i < cs@.len(),
            None => last_sep(cs@) is None,
        },
{
    let mut k: usize = cs.len();
    proof {
        assert(cs@.subrange(0, cs@.len() as int) =~= cs@);
    }
    while k > 0
        invariant
            0 <= k <= cs@.len(),
            last_sep(cs@) == last_sep(cs@.subrange(0, k as int)),
        decreases k,
    {
        let c = cs[k - 1];
        proof {
            assert(cs@.subrange(0, k as int).last() == cs@[k - 1]);
            assert(cs@.subrange(0, k as int).drop_last() =~= cs@.subrange(0, k - 1 as int));
        }
        if c == '/' || c == '\\' {
            return Some(k - 1);
        }
        k -= 1;
    }
    proof {
        assert(cs@.subrange(0, 0) =~= Seq::<char>::empty());
    }
    None
}

/// Everything the scaffold will create on disk: the mod root directory, its
/// three override subdirectories, and the manifest file with its text.
pub struct ScaffoldPlan {
    pub mod_root: String,
    pub config_dir: String,
    pub image_dir: String,
    pub sound_dir: String,
    pub manifest_path: String,
    pub manifest_text: String,
}

/// The manifest record of a new mod: the supplied metadata and the initial
/// version.
pub open spec fn manifest_of(
    name: Seq<char>,
    desc: Seq<char>,
    units: bool,
    tapes: bool,
    enemies: bool,
) -> ModDataV {
    ModDataV {
        name: name,
        desc: desc,
        entity: units,
        enemy: enemies,
        version: "1.0.0"@,
        card: tapes,
    }
}

/// Lay out the scaffold of a new mod beside the workspace.
///
/// The mod root is `<parent of workspace>/ModDebug/<name>`; under it stand
/// exactly the three override subdirectories and the manifest file, whose
/// text is the serialized manifest record.  A workspace path without a
/// parent directory yields no plan.
pub fn scaffold_plan(
    workspace: &str,
    name: &str,
    desc: &str,
    units: bool,
    tapes: bool,
    enemies: bool,
) -> (r: Option<ScaffoldPlan>)
    ensures
        r is Some <==> parent_of(workspace@) is Some,
        r matches Some(p) ==> {
            &&& p.mod_root@ == parent_of(workspace@)->Some_0 + "/ModDebug/"@ + name@
            &&& p.config_dir@ == p.mod_root@ + "/Config_Mod"@
            &&& p.image_dir@ == p.mod_root@ + "/Image_Mod"@
            &&& p.sound_dir@ == p.mod_root@ + "/Sound_Mod"@
            &&& p.manifest_path@ == p.mod_root@ + "/moddata.json"@
            &&& p.manifest_text@ == manifest_of(name@, desc@, units, tapes, enemies).wire_ser()
        },
{
    let cs = crate::text::chars_of(workspace);
    let sep = match find_last_sep(&cs) {
        None => {
            return None;
        },
        Some(i) => i,
    };
    let mut root_chars: Vec<char> = Vec::new();
    let mut k: usize = 0;
    while k < sep
        invariant
            0 <= k <= sep < cs@.len(),
            cs@ == workspace@,
            root_chars@ == cs@.subrange(0, k as int),
        decreases sep - k,
    {
        root_chars.push(cs[k]);
        proof {
            assert(cs@.subrange(0, k + 1 as int) =~= cs@.subrange(0, k as int).push(
                cs@[k as int],
            ));
        }
        k += 1;
    }
    let mut mod_root = crate::text::string_of(&root_chars);
    mod_root.append("/ModDebug/");
    mod_root.append(name);
    let mut config_dir = mod_root.clone();
    config_dir.append("/Config_Mod");
    let mut image_dir = mod_root.clone();
    image_dir.append("/Image_Mod");
    let mut sound_dir = mod_root.clone();
    sound_dir.append("/Sound_Mod");
    let mut manifest_path = mod_root.clone();
    manifest_path.append("/moddata.json");
    let manifest = ModData {
        name: name.to_owned(),
        desc: desc.to_owned(),
        entity: units,
        enemy: enemies,
        version: "1.0.0".to_owned(),
        card: tapes,
    };
    let mut text_chars: Vec<char> = Vec::new();
    manifest.wire_write(&mut text_chars);
    let manifest_text = crate::text::string_of(&text_chars);
    Some(
        ScaffoldPlan {
            mod_root,
            config_dir,
            image_dir,
            sound_dir,
            manifest_path,
            manifest_text,
        },
    )
}

} // verus!
