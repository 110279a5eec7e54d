//! Script tags of a page head.
use vstd::prelude::*;

verus! {

/// A script that a page loads, with its optional integrity hash and
/// cross-origin mode.
pub struct Script {
    pub url: String,
    pub integrity: Option<String>,
    pub crossorigin: Option<String>,
    pub charset: String,
}

pub const SCRIPT_SRC: &'static str = "<script src=\"";

pub const SCRIPT_INTEGRITY: &'static str = "\" integrity=\"";

pub const SCRIPT_CROSSORIGIN: &'static str = "\" crossorigin=\"";

pub const SCRIPT_CHARSET: &'static str = "\" charset=\"";

pub const SCRIPT_END: &'static str = "\"></script>";

impl Script {
    /// The tag that loads the script.
    pub open spec fn html(&self) -> Seq<char> {
        match self.integrity {
            Some(itg) => match self.crossorigin {
                Some(cro) => SCRIPT_SRC@ + self.url@ + SCRIPT_INTEGRITY@ + itg@
                    + SCRIPT_CROSSORIGIN@ + cro@ + SCRIPT_CHARSET@ + self.charset@ + SCRIPT_END@,
                None => SCRIPT_SRC@ + self.url@ + SCRIPT_INTEGRITY@ + itg@ + SCRIPT_CHARSET@
                    + self.charset@ + SCRIPT_END@,
            },
            None => SCRIPT_SRC@ + self.url@ + SCRIPT_CHARSET@ + self.charset@ + SCRIPT_END@,
        }
    }

    /// A local script in UTF-8, without integrity hash.
    pub fn new(url: &str) -> (r: Script)
        ensures
            r.url@ == url@,
            r.integrity is None,
            r.crossorigin is None,
            r.charset@ == "utf-8"@,
    {
        Script { url: url.to_owned(), integrity: None, crossorigin: None, charset: "utf-8".to_owned() }
    }

    /// A script from another origin, checked against `integrity` and
    /// fetched anonymously.
    pub fn with_external(url: &str, integrity: &str) -> (r: Script)
        ensures
            r.url@ == url@,
            r.integrity matches Some(i) && i@ == integrity@,
            r.crossorigin matches Some(c) && c@ == "anonymous"@,
            r.charset@ == "utf-8"@,
    {
        Script {
            url: url.to_owned(),
            integrity: Some(integrity.to_owned()),
            crossorigin: Some("anonymous".to_owned()),
            charset: "utf-8".to_owned(),
        }
    }

    /// The tag that loads the script.
    pub fn as_html(&self) -> (r: String)
        ensures
            r@ == self.html(),
    {
        let mut out = String::new();
        out.append(SCRIPT_SRC);
        out.append(self.url.as_str());
        match &self.integrity {
            Some(itg) => {
                out.append(SCRIPT_INTEGRITY);
                out.append(itg.as_str());
                match &self.crossorigin {
                    Some(cro) => {
                        out.append(SCRIPT_CROSSORIGIN);
                        out.append(cro.as_str());
                    },
                    None => {},
                }
            },
            None => {},
        }
        out.append(SCRIPT_CHARSET);
        out.append(self.charset.as_str());
        out.append(SCRIPT_END);
        out
    }
}

} // verus!
