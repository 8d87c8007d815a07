use vstd::prelude::*;
use vstd::string::StrSliceExecFns;
use vstd::string::StringExecFns;

verus! {

/// Whether `c` may appear in a handle: ASCII letters and digits, `-`, `_`,
/// `/` and `\`.
pub open spec fn is_handle_char(c: char) -> bool {
    ('a' <= c && c <= 'z') || ('A' <= c && c <= 'Z') || ('0' <= c && c <= '9') || c == '-' || c
        == '_' || c == '/' || c == '\\'
}

/// A handle is between 1 and 255 characters long, all of them handle
/// characters.
pub open spec fn valid_handle(s: Seq<char>) -> bool {
    1 <= s.len() <= 255 && forall|i: int| 0 <= i < s.len() ==> is_handle_char(#[trigger] s[i])
}

/// The file-system safe form of one handle character.
pub open spec fn path_char(c: char) -> char {
    if c == '/' {
        '+'
    } else if c == '\\' {
        '='
    } else {
        c
    }
}

/// The handle character that a file-system safe character stands for.
pub open spec fn unpath_char(c: char) -> char {
    if c == '+' {
        '/'
    } else if c == '=' {
        '\\'
    } else {
        c
    }
}

/// The file-system safe form of a handle: `/` becomes `+`, `\` becomes `=`.
pub open spec fn path_form(s: Seq<char>) -> Seq<char> {
    s.map_values(|c: char| path_char(c))
}

/// The identifying name of an RPKI entity: a parent, a child, a publisher or
/// a repository.
#[derive(Debug, Eq, Hash, PartialEq)]
pub struct Handle {
    name: String,
}

pub type ParentHandle = Handle;

pub type ChildHandle = Handle;

pub type PublisherHandle = Handle;

pub type RepositoryHandle = Handle;

/// The error for a string that is not a valid handle.
#[derive(Clone, Copy, Debug, Eq, PartialEq)]
pub struct InvalidHandle;

impl View for Handle {
    type V = Seq<char>;

    closed spec fn view(&self) -> Seq<char> {
        self.name@
    }
}

impl Clone for Handle {
    fn clone(&self) -> (r: Handle)
        ensures
            r@ == self@,
    {
        self.duplicate()
    }
}

impl InvalidHandle {
    /// Describes the error.
    pub fn message(&self) -> (r: String)
        ensures
            r@ == "Handle MUST have pattern: [-_A-Za-z0-9/]{1,255}"@,
    {
        proof {
            reveal_strlit("Handle MUST have pattern: [-_A-Za-z0-9/]{1,255}");
        }
        String::from_str("Handle MUST have pattern: [-_A-Za-z0-9/]{1,255}")
    }
}

/// Whether a character is a handle character.
fn handle_char(c: char) -> (r: bool)
    ensures
        r == is_handle_char(c),
{
    ('a' <= c && c <= 'z') || ('A' <= c && c <= 'Z') || ('0' <= c && c <= '9') || c == '-' || c
        == '_' || c == '/' || c == '\\'
}

impl Handle {
    #[verifier::type_invariant]
    spec fn inv(&self) -> bool {
        valid_handle(self.name@)
    }

    /// The handle is valid; every value of the type is.
    pub open spec fn wf(&self) -> bool {
        valid_handle(self@)
    }

    /// Makes the invariant of a handle known at a call site.
    pub fn check_wf(&self)
        ensures
            self.wf(),
    {
        proof {
            use_type_invariant(self);
        }
    }

    /// Checks that `s` is a valid handle.
    pub fn verify_name(s: &str) -> (r: Result<(), InvalidHandle>)
        ensures
            r is Ok <==> valid_handle(s@),
    {
        let n = s.unicode_len();
        if n == 0 || n > 255 {
            return Err(InvalidHandle);
        }
        let mut i: usize = 0;
        while i < n
            invariant
                n == s@.len(),
                i <= n,
                forall|j: int| 0 <= j < i ==> is_handle_char(#[trigger] s@[j]),
            decreases n - i,
        {
            let c = s.get_char(i);
            if !handle_char(c) {
                return Err(InvalidHandle);
            }
            i = i + 1;
        }
        Ok(())
    }

    /// Parses a handle: succeeds exactly on valid handles, which are kept
    /// as they are.
    pub fn from_str(s: &str) -> (r: Result<Handle, InvalidHandle>)
        ensures
            r is Ok <==> valid_handle(s@),
            r matches Ok(h) ==> h@ == s@,
    {
        match Self::verify_name(s) {
            Ok(()) => Ok(Handle { name: s.to_owned() }),
            Err(e) => Err(e),
        }
    }

    /// Makes a handle of an owned string.
    pub fn try_from_string(value: String) -> (r: Result<Handle, InvalidHandle>)
        ensures
            r is Ok <==> valid_handle(value@),
            r matches Ok(h) ==> h@ == value@,
    {
        match Self::verify_name(value.as_str()) {
            Ok(()) => Ok(Handle { name: value }),
            Err(e) => Err(e),
        }
    }

    pub fn as_str(&self) -> (r: &str)
        ensures
            r@ == self@,
    {
        self.name.as_str()
    }

    /// A copy of the handle's text.
    pub fn to_string(&self) -> (r: String)
        ensures
            r@ == self@,
    {
        self.name.as_str().to_owned()
    }

    /// A copy of the handle.
    pub fn duplicate(&self) -> (r: Handle)
        ensures
            r@ == self@,
    {
        proof {
            use_type_invariant(self);
        }
        Handle { name: self.name.as_str().to_owned() }
    }

    /// The file-system safe name of the handle, with `/` as `+` and `\` as
    /// `=`.
    pub fn to_path_buf(&self) -> (r: String)
        ensures
            r@ == path_form(self@),
    {
        proof {
            use_type_invariant(self);
        }
        let s = self.name.as_str();
        let n = s.unicode_len();
        let mut out = String::new();
        let mut i: usize = 0;
        while i < n
            invariant
                n == s@.len(),
                s@ == self@,
                i <= n,
                out@ == path_form(s@.subrange(0, i as int)),
                valid_handle(s@),
            decreases n - i,
        {
            let c = s.get_char(i);
            proof {
                reveal_strlit("+");
                reveal_strlit("=");
                assert(s@.subrange(0, i + 1) == s@.subrange(0, i as int).push(c));
            }
            if c == '/' {
                out.append("+");
            } else if c == '\\' {
                out.append("=");
            } else {
                let one = s.substring_char(i, i + 1);
                assert(one@ =~= seq![c]);
                out.append(one);
            }
            assert(out@ =~= path_form(s@.subrange(0, i + 1)));
            i = i + 1;
        }
        assert(s@.subrange(0, n as int) =~= s@);
        out
    }

    /// Reads a handle back from a path: its last component, after the last
    /// `/`, with `+` read as `/` and `=` as `\`, must be a valid handle.
    pub fn from_path_buf(path: &str) -> (r: Result<Handle, InvalidHandle>)
        ensures
            r is Ok <==> valid_handle(unpath_file(path@)),
            r matches Ok(h) ==> h@ == unpath_file(path@),
    {
        let n = path.unicode_len();
        let mut out = String::new();
        let mut i: usize = 0;
        while i < n
            invariant
                n == path@.len(),
                i <= n,
                out@ == unpath_file(path@.subrange(0, i as int)),
            decreases n - i,
        {
            let c = path.get_char(i);
            proof {
                reveal_strlit("/");
                reveal_strlit("\\");
                assert(path@.subrange(0, i + 1).drop_last() =~= path@.subrange(0, i as int));
                assert(path@.subrange(0, i + 1).last() == c);
            }
            if c == '/' {
                out = String::new();
            } else if c == '+' {
                out.append("/");
            } else if c == '=' {
                out.append("\\");
            } else {
                let one = path.substring_char(i, i + 1);
                assert(one@ =~= seq![c]);
                out.append(one);
            }
            assert(out@ =~= unpath_file(path@.subrange(0, i + 1)));
            i = i + 1;
        }
        assert(path@.subrange(0, n as int) =~= path@);
        Self::try_from_string(out)
    }
}

/// The handle that a path stands for: its last component, after the last
/// `/`, with each character mapped back by `unpath_char`.
pub open spec fn unpath_file(p: Seq<char>) -> Seq<char>
    decreases p.len(),
{
    if p.len() == 0 {
        Seq::empty()
    } else if p.last() == '/' {
        Seq::empty()
    } else {
        unpath_file(p.drop_last()).push(unpath_char(p.last()))
    }
}

/// For handle characters, reading back the path form gives them again.
proof fn lemma_unpath_file_path_form(s: Seq<char>)
    requires
        forall|i: int| 0 <= i < s.len() ==> is_handle_char(#[trigger] s[i]),
    ensures
        unpath_file(path_form(s)) == s,
    decreases s.len(),
{
    if s.len() > 0 {
        let d = s.drop_last();
        assert(path_form(s).drop_last() =~= path_form(d));
        assert(forall|i: int| 0 <= i < d.len() ==> #[trigger] d[i] == s[i]);
        lemma_unpath_file_path_form(d);
        assert(is_handle_char(s[s.len() - 1]));
        assert(unpath_file(path_form(s)) =~= s);
    }
}

/// Mapping a valid handle to its file-system safe name and back gives the
/// handle again.
pub proof fn lemma_path_round_trip(s: Seq<char>)
    requires
        valid_handle(s),
    ensures
        unpath_file(path_form(s)) == s,
        valid_handle(unpath_file(path_form(s))),
{
    lemma_unpath_file_path_form(s);
}

} // verus!
