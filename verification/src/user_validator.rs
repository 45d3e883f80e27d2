//! Who may use the service: the validator interface, and the rule of the
//! black and white lists.

use crate::text::{push_text, text};
use vstd::prelude::*;

verus! {

/// Decides, once a login is confirmed, whether the user may go on. The
/// answer is either a verdict or the reason why none could be reached.
pub trait UserValidator {
    fn validate(&self, uid: i64) -> Result<bool, String>;
}

/// The lists of a configuration file.
#[derive(Debug)]
pub struct BaseConf {
    pub white_list: Option<Vec<i64>>,
    pub black_list: Option<Vec<i64>>,
}

/// Whether the list, if there is one, names `uid`.
pub open spec fn listed(list: Option<Vec<i64>>, uid: i64) -> bool {
    list matches Some(l) && l@.contains(uid)
}

impl BaseConf {
    /// A user on the black list is refused. Otherwise, where a white list
    /// exists only its members are admitted; where none exists everyone is.
    pub open spec fn allows(self, uid: i64) -> bool {
        !listed(self.black_list, uid) && (self.white_list is Some ==> listed(self.white_list, uid))
    }

    /// The verdict on `uid`.
    pub fn validate(&self, uid: i64) -> (r: bool)
        ensures
            r == self.allows(uid),
    {
        if let Some(b) = &self.black_list {
            if contains(b, uid) {
                return false;
            }
        }
        if let Some(w) = &self.white_list {
            return contains(w, uid);
        }
        true
    }
}

/// Whether `uid` occurs in `list`.
pub fn contains(list: &Vec<i64>, uid: i64) -> (r: bool)
    ensures
        r == list@.contains(uid),
{
    let mut i: usize = 0;
    while i < list.len()
        invariant
            i <= list.len(),
            forall|j: int| 0 <= j < i ==> list@[j] != uid,
        decreases list.len() - i,
    {
        if list[i] == uid {
            return true;
        }
        i = i + 1;
    }
    false
}

/// A validator that goes by the lists of the configuration file at a path,
/// read anew for every verdict.
#[derive(Debug)]
pub struct WBList {
    conf_path: String,
}

impl View for WBList {
    type V = Seq<char>;

    closed spec fn view(&self) -> Seq<char> {
        self.conf_path@
    }
}

impl Clone for WBList {
    fn clone(&self) -> (r: Self)
        ensures
            r@ == self@,
    {
        WBList { conf_path: self.conf_path.clone() }
    }
}

/// What [`WBList::new`] returns for a path and what reading its file gave.
pub open spec fn spec_new_wblist(conf_path: Seq<char>, read: Result<BaseConf, String>) -> Result<
    Seq<char>,
    Seq<char>,
> {
    match read {
        Ok(_) => Ok(conf_path),
        Err(cause) => Err("读取配置文件失败: "@ + cause@),
    }
}

/// A validator or the reason why there is none, each by its view.
pub open spec fn wblist_view(r: Result<WBList, String>) -> Result<Seq<char>, Seq<char>> {
    match r {
        Ok(w) => Ok(w@),
        Err(e) => Err(e@),
    }
}

impl WBList {
    /// A validator for the file at `conf_path`, given what reading that file
    /// gave. There is a validator only for a file that could be read and
    /// understood; for any other, the error names the cause.
    pub fn new(conf_path: &str, read: Result<BaseConf, String>) -> (r: Result<Self, String>)
        ensures
            wblist_view(r) == spec_new_wblist(conf_path@, read),
    {
        match read {
            Ok(_) => Ok(WBList { conf_path: text(conf_path) }),
            Err(cause) => {
                let mut m = text("读取配置文件失败: ");
                push_text(&mut m, cause.as_str());
                Err(m)
            },
        }
    }

    /// The path of the configuration file.
    pub fn conf_path(&self) -> (r: &String)
        ensures
            r@ == self@,
    {
        &self.conf_path
    }

    /// The verdict on `uid` by the lists as they were just read.
    pub fn validate_with(&self, conf: &BaseConf, uid: i64) -> (r: bool)
        ensures
            r == conf.allows(uid),
    {
        conf.validate(uid)
    }
}

} // verus!
