use vstd::prelude::*;
use vstd::string::{StringExecFns, StringSliceAdditionalSpecFns};
use vstd::utf8::{decode_utf8, encode_utf8, encode_utf8_decode_utf8, is_char_boundary};

verus! {

/// What is known of a build.
pub struct BuildInfo {
    pub pkg_version: String,
    /// The full hash of the commit that was built, where it is known.
    pub git_commit_hash: Option<String>,
    pub debug: bool,
    pub cfg_os: String,
    pub cfg_target_arch: String,
    pub cfg_pointer_width: String,
    pub rustc_version: String,
    pub built_time_utc: String,
}

impl BuildInfo {
    /// Whether the hash can be cut after its ninth byte: it has as many,
    /// and no character lies across the cut.
    pub open spec fn hash_cut(self) -> bool {
        self.git_commit_hash matches Some(hash) ==> encode_utf8(hash@).len() >= 9
            && is_char_boundary(encode_utf8(hash@), 9)
    }

    /// How the commit is shown: the characters that the first nine bytes of
    /// its hash hold, or that it is unknown.
    pub open spec fn commit_shown(self) -> Seq<char> {
        match self.git_commit_hash {
            Some(hash) => decode_utf8(encode_utf8(hash@).subrange(0, 9)),
            None => "Unknown commit"@,
        }
    }

    /// How a debug build is marked.
    pub open spec fn debug_shown(self) -> Seq<char> {
        if self.debug {
            " (debug)"@
        } else {
            ""@
        }
    }

    /// The line that describes the build.
    pub open spec fn shown(self) -> Seq<char> {
        "Version "@ + self.pkg_version@ + " ("@ + self.commit_shown() + ")"@ + self.debug_shown()
            + ", built for "@ + self.cfg_os@ + " "@ + self.cfg_target_arch@ + " "@
            + self.cfg_pointer_width@ + "-bit using "@ + self.rustc_version@ + " at "@
            + self.built_time_utc@
    }
}

/// One line that describes the build: the version, the commit by the first
/// nine bytes of its hash, whether it is a debug build, what it was built
/// for, with what, and when.
pub fn version_str(info: &BuildInfo) -> (line: String)
    requires
        info.hash_cut(),
    ensures
        line@ == info.shown(),
{
    let mut line = String::from_str("Version ");
    line.append(info.pkg_version.as_str());
    line.append(" (");
    match &info.git_commit_hash {
        Some(hash) => {
            let (head, _) = hash.as_str().split_at(9);
            proof {
                encode_utf8_decode_utf8(head@);
                assert(head.spec_bytes() == encode_utf8(hash@).subrange(0, 9));
            }
            line.append(head);
        },
        None => {
            line.append("Unknown commit");
        },
    }
    line.append(")");
    if info.debug {
        line.append(" (debug)");
    } else {
        line.append("");
    }
    line.append(", built for ");
    line.append(info.cfg_os.as_str());
    line.append(" ");
    line.append(info.cfg_target_arch.as_str());
    line.append(" ");
    line.append(info.cfg_pointer_width.as_str());
    line.append("-bit using ");
    line.append(info.rustc_version.as_str());
    line.append(" at ");
    line.append(info.built_time_utc.as_str());
    line
}

} // verus!
