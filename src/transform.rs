use vstd::prelude::*;
use crate::code::{
    code_of, compose_code, json_quoted, key_of, record_of, record_text, registry_key,
};
use crate::digits::decimal_of;
use crate::message::{
    error_argument, first_argument, is_code_wrapper, is_error_site, message_of, stringify_new_error_arg,
    wrap_with_code, JsExpr,
};
use crate::occurrences::Occurrences;
use crate::registry::{parse_mode, ConfigField, Mode, TransformError};

verus! {

/// A code given to one error site, with what the registry keeps of it.
pub struct IssuedCode {
    /// The code: `E`, the commit, then the key.
    pub code: String,
    /// The registry key: the record's hash in hexadecimal.
    pub key: String,
    /// The canonical text of the record, which the registry stores under the key.
    pub record: String,
}

/// The state of the rewrite over one compilation unit.
pub struct TransformVisitor {
    commit_hash: String,
    file_path: String,
    mode: Mode,
    dry_run: bool,
    string_occurrences: Occurrences,
}

impl TransformVisitor {
    pub closed spec fn wf(&self) -> bool {
        self.string_occurrences.wf()
    }

    pub closed spec fn commit_view(&self) -> Seq<char> {
        self.commit_hash@
    }

    pub closed spec fn file_path_view(&self) -> Seq<char> {
        self.file_path@
    }

    pub closed spec fn mode_view(&self) -> Mode {
        self.mode
    }

    pub closed spec fn dry_run_view(&self) -> bool {
        self.dry_run
    }

    /// How many codes the message template `t` has received in this unit.
    pub closed spec fn occurrences(&self, t: Seq<char>) -> nat {
        self.string_occurrences.count(t)
    }

    /// The same visitor but for the occurrence count of `t`, which is one more.
    pub open spec fn counted_once_more(&self, before: &Self, t: Seq<char>) -> bool {
        &&& self.wf()
        &&& self.commit_view() == before.commit_view()
        &&& self.file_path_view() == before.file_path_view()
        &&& self.mode_view() == before.mode_view()
        &&& self.dry_run_view() == before.dry_run_view()
        &&& self.occurrences(t) == before.occurrences(t) + 1
        &&& forall|u: Seq<char>| u != t ==> self.occurrences(u) == before.occurrences(u)
    }

    /// The code issued for message `t` at occurrence `n` in this unit.
    pub open spec fn issued_for(&self, r: IssuedCode, t: Seq<char>, n: nat) -> bool {
        &&& r.record@ == record_of(self.file_path_view(), t, n)
        &&& r.key@ == key_of(r.record@)
        &&& r.code@ == code_of(self.commit_view(), r.key@)
    }

    /// A visitor for one unit, with no occurrence counted yet.
    pub fn new(commit_hash: String, file_path: String, mode: Mode, dry_run: bool) -> (r: Self)
        ensures
            r.wf(),
            r.commit_view() == commit_hash@,
            r.file_path_view() == file_path@,
            r.mode_view() == mode,
            r.dry_run_view() == dry_run,
            forall|t: Seq<char>| r.occurrences(t) == 0,
    {
        TransformVisitor { commit_hash, file_path, mode, dry_run, string_occurrences: Occurrences::new() }
    }

    /// A visitor from the configuration's three fields: each must be present,
    /// and the mode must be `check` or `generate`.
    pub fn from_config(
        commit_hash: Option<String>,
        file_path: Option<String>,
        mode: Option<String>,
        dry_run: bool,
    ) -> (r: Result<Self, TransformError>)
        ensures
            commit_hash is None <==> (r matches Err(TransformError::MissingConfig(ConfigField::CommitHash))),
            commit_hash is Some && file_path is None <==> (r matches Err(TransformError::MissingConfig(ConfigField::FilePath))),
            commit_hash is Some && file_path is Some && mode is None <==> (r matches Err(TransformError::MissingConfig(ConfigField::Mode))),
            commit_hash is Some && file_path is Some && mode is Some ==> {
                let m = mode->Some_0;
                &&& (m@ == "check"@ || m@ == "generate"@) <==> r is Ok
                &&& r is Err ==> (r matches Err(TransformError::UnknownMode(v)) && v@ == m@)
            },
            r matches Ok(v) ==> {
                &&& v.wf()
                &&& v.commit_view() == commit_hash->Some_0@
                &&& v.file_path_view() == file_path->Some_0@
                &&& (v.mode_view() == Mode::Check <==> mode->Some_0@ == "check"@)
                &&& (v.mode_view() == Mode::Generate <==> mode->Some_0@ == "generate"@)
                &&& v.dry_run_view() == dry_run
                &&& forall|t: Seq<char>| v.occurrences(t) == 0
            },
    {
        let commit_hash = match commit_hash {
            Some(c) => c,
            None => return Err(TransformError::MissingConfig(ConfigField::CommitHash)),
        };
        let file_path = match file_path {
            Some(f) => f,
            None => return Err(TransformError::MissingConfig(ConfigField::FilePath)),
        };
        let mode = match mode {
            Some(m) => m,
            None => return Err(TransformError::MissingConfig(ConfigField::Mode)),
        };
        let mode = match parse_mode(&mode) {
            Ok(m) => m,
            Err(e) => return Err(e),
        };
        Ok(TransformVisitor::new(commit_hash, file_path, mode, dry_run))
    }

    /// The registry work owed for each issued code: none in a dry run, else
    /// that of the mode.
    pub fn registry_action(&self) -> (r: Option<Mode>)
        ensures
            r == (if self.dry_run_view() { None } else { Some(self.mode_view()) }),
    {
        if self.dry_run {
            None
        } else {
            Some(self.mode)
        }
    }

    /// How many codes the message template `t` has received in this unit.
    pub fn occurrence_count(&self, t: &String) -> (r: usize)
        requires
            self.wf(),
        ensures
            r == self.occurrences(t@),
    {
        self.string_occurrences.count_of(t)
    }

    /// Counts one more occurrence of the first argument's message template and
    /// issues the code for it: the commit, then the hash of the record
    /// `{ file_path, error_message, occurrence_count }`.
    pub fn get_error_code(&mut self, first_arg: &JsExpr) -> (r: IssuedCode)
        requires
            old(self).wf(),
            old(self).occurrences(message_of(*first_arg)) < usize::MAX,
        ensures
            final(self).counted_once_more(old(self), message_of(*first_arg)),
            old(self).issued_for(r, message_of(*first_arg), old(self).occurrences(message_of(*first_arg)) + 1),
    {
        let error_message = stringify_new_error_arg(first_arg);
        let count = self.string_occurrences.next_occurrence(&error_message);
        let record = record_text(&self.file_path, &error_message, count);
        let key = registry_key(&record);
        let code = compose_code(&self.commit_hash, &key);
        IssuedCode { code, key, record }
    }

    /// Rewrites one expression whose children are already rewritten: an error
    /// site is wrapped with a new code, anything else is handed back as it is.
    pub fn visit_expr(&mut self, e: JsExpr) -> (r: (JsExpr, Option<IssuedCode>))
        requires
            old(self).wf(),
            is_error_site(e) ==> old(self).occurrences(message_of(first_argument(e))) < usize::MAX,
        ensures
            is_error_site(e) ==> {
                let t = message_of(first_argument(e));
                &&& r.1 matches Some(issued)
                &&& is_code_wrapper(r.0, e, issued.code@)
                &&& old(self).issued_for(issued, t, old(self).occurrences(t) + 1)
                &&& final(self).counted_once_more(old(self), t)
            },
            !is_error_site(e) ==> r.0 == e && r.1 is None && *final(self) == *old(self),
    {
        let issued = match error_argument(&e) {
            Some(arg) => self.get_error_code(arg),
            None => return (e, None),
        };
        let code = issued.code.clone();
        (wrap_with_code(e, code), Some(issued))
    }
}

/// Two codes for one message template in one unit carry the occurrence counts
/// 1 and 2, so their records differ.
pub proof fn lemma_repeated_message_counts_up(
    v0: TransformVisitor,
    v1: TransformVisitor,
    v2: TransformVisitor,
    t: Seq<char>,
    first: IssuedCode,
    second: IssuedCode,
)
    requires
        v0.wf(),
        v0.occurrences(t) == 0,
        v1.counted_once_more(&v0, t),
        v0.issued_for(first, t, v0.occurrences(t) + 1),
        v2.counted_once_more(&v1, t),
        v1.issued_for(second, t, v1.occurrences(t) + 1),
    ensures
        first.record@ == record_of(v0.file_path_view(), t, 1),
        second.record@ == record_of(v0.file_path_view(), t, 2),
        first.record@ != second.record@,
{
    let p = "{\"error_message\":"@ + json_quoted(t) + ",\"file_path\":"@ + json_quoted(v0.file_path_view())
        + ",\"occurrence_count\":"@;
    assert(decimal_of(1) == seq!['1']);
    assert(decimal_of(2) == seq!['2']);
    assert(first.record@ == p + seq!['1'] + "}"@);
    assert(second.record@ == p + seq!['2'] + "}"@);
    assert((p + seq!['1'] + "}"@)[p.len() as int] == '1');
    assert((p + seq!['2'] + "}"@)[p.len() as int] == '2');
}

} // verus!
