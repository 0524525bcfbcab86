//! Parsing uniform declarations out of shader source text.
//!
//! A shader declares its uniforms in lines such as `uniform mat4 view;`.
//! The parser walks the source line by line and records, for every line
//! that opens with the token `uniform ` and has at least three
//! whitespace-separated tokens, the third token with its trailing
//! semicolons removed — in source order, duplicates kept.  Lines with
//! fewer tokens are silently skipped, as a permissive loader ignores
//! malformed declarations.

use vstd::prelude::*;
use vstd::string::StrSliceExecFns;
use vstd::string::StringExecFns;

use crate::error::RenderError;
use crate::shaders::Shader;
use crate::shaders::ShaderType;
use crate::shaders::get_gl_shader_type;
use crate::shaders::get_shader_type;
use crate::shaders::spec_gl_shader_type;
use crate::shaders::spec_shader_type;

verus! {

/// Index of the first occurrence of `stop` in `s` at or after `from`, or
/// `s.len()` when there is none.
pub open spec fn spec_scan_to(s: Seq<char>, from: int, stop: char) -> int
    decreases s.len() - from,
{
    if from >= s.len() {
        s.len() as int
    } else if s[from] == stop {
        from
    } else {
        spec_scan_to(s, from + 1, stop)
    }
}

proof fn lemma_scan_to_bounds(s: Seq<char>, from: int, stop: char)
    requires
        from <= s.len(),
    ensures
        from <= spec_scan_to(s, from, stop) <= s.len(),
    decreases s.len() - from,
{
    if from < s.len() && s[from] != stop {
        lemma_scan_to_bounds(s, from + 1, stop);
    }
}

proof fn lemma_scan_to_at(s: Seq<char>, from: int, e: int, stop: char)
    requires
        0 <= from <= e <= s.len(),
        forall|j: int| from <= j < e ==> s[j] != stop,
        e == s.len() || s[e] == stop,
    ensures
        spec_scan_to(s, from, stop) == e,
    decreases e - from,
{
    if from < e {
        lemma_scan_to_at(s, from + 1, e, stop);
    }
}

/// Whether a character separates tokens within a line: the ASCII
/// whitespace characters.  (A line feed never occurs inside a line.)
pub open spec fn spec_is_space(c: char) -> bool {
    c == ' ' || c == '\t' || c == '\n' || c == '\r' || c == '\u{B}' || c == '\u{C}'
}

/// Exec mirror of [`spec_is_space`].
fn is_space(c: char) -> (b: bool)
    ensures
        b == spec_is_space(c),
{
    c == ' ' || c == '\t' || c == '\n' || c == '\r' || c == '\u{B}' || c == '\u{C}'
}

/// First index at or after `from` holding a token separator, or `s.len()`
/// when there is none.
pub open spec fn spec_scan_space(s: Seq<char>, from: int) -> int
    decreases s.len() - from,
{
    if from >= s.len() {
        s.len() as int
    } else if spec_is_space(s[from]) {
        from
    } else {
        spec_scan_space(s, from + 1)
    }
}

/// First index at or after `from` holding a non-separator, or `s.len()`
/// when there is none.
pub open spec fn spec_scan_nonspace(s: Seq<char>, from: int) -> int
    decreases s.len() - from,
{
    if from >= s.len() {
        s.len() as int
    } else if !spec_is_space(s[from]) {
        from
    } else {
        spec_scan_nonspace(s, from + 1)
    }
}

proof fn lemma_scan_space_at(s: Seq<char>, from: int, e: int)
    requires
        0 <= from <= e <= s.len(),
        forall|j: int| from <= j < e ==> !spec_is_space(s[j]),
        e == s.len() || spec_is_space(s[e]),
    ensures
        spec_scan_space(s, from) == e,
    decreases e - from,
{
    if from < e {
        lemma_scan_space_at(s, from + 1, e);
    }
}

proof fn lemma_scan_nonspace_at(s: Seq<char>, from: int, e: int)
    requires
        0 <= from <= e <= s.len(),
        forall|j: int| from <= j < e ==> spec_is_space(s[j]),
        e == s.len() || !spec_is_space(s[e]),
    ensures
        spec_scan_nonspace(s, from) == e,
    decreases e - from,
{
    if from < e {
        lemma_scan_nonspace_at(s, from + 1, e);
    }
}

/// A line's content once its line ending is gone: `str` line iteration
/// splits at `\n` and drops one `\r` left at the end by a `\r\n` ending.
pub open spec fn spec_strip_cr(line: Seq<char>) -> Seq<char> {
    if line.len() > 0 && line[line.len() - 1] == '\r' {
        line.drop_last()
    } else {
        line
    }
}

/// Whether a line opens with the token `uniform `.
pub open spec fn spec_starts_with_uniform(line: Seq<char>) -> bool {
    &&& line.len() >= 8
    &&& line[0] == 'u'
    &&& line[1] == 'n'
    &&& line[2] == 'i'
    &&& line[3] == 'f'
    &&& line[4] == 'o'
    &&& line[5] == 'r'
    &&& line[6] == 'm'
    &&& line[7] == ' '
}

/// A token with its trailing semicolons removed.
pub open spec fn spec_trim_semis(t: Seq<char>) -> Seq<char>
    decreases t.len(),
{
    if t.len() > 0 && t[t.len() - 1] == ';' {
        spec_trim_semis(t.drop_last())
    } else {
        t
    }
}

proof fn lemma_trim_semis_at(t: Seq<char>, k: int)
    requires
        0 <= k <= t.len(),
        forall|j: int| k <= j < t.len() ==> t[j] == ';',
        k > 0 ==> t[k - 1] != ';',
    ensures
        spec_trim_semis(t) == t.take(k),
    decreases t.len(),
{
    if t.len() == k {
        assert(t.take(k) =~= t);
    } else {
        lemma_trim_semis_at(t.drop_last(), k);
        assert(t.drop_last().take(k) =~= t.take(k));
    }
}

/// What one line (line ending already gone) contributes: the name it
/// declares, or nothing.
///
/// A declaring line opens with `uniform ` and has at least three
/// whitespace-separated tokens; it contributes its third token — the
/// declared name — with trailing semicolons removed.  A run of whitespace
/// counts as one separator, and a line with fewer than three tokens is
/// silently skipped as malformed.
pub open spec fn spec_uniform_of_line(line: Seq<char>) -> Seq<Seq<char>> {
    if !spec_starts_with_uniform(line) {
        Seq::empty()
    } else {
        let t0e = spec_scan_space(line, spec_scan_nonspace(line, 0));
        let t1e = spec_scan_space(line, spec_scan_nonspace(line, t0e));
        let t2s = spec_scan_nonspace(line, t1e);
        let t2e = spec_scan_space(line, t2s);
        if t2s >= line.len() {
            Seq::empty()
        } else {
            seq![spec_trim_semis(line.subrange(t2s, t2e))]
        }
    }
}

/// The names declared from position `from` on, line by line.
pub open spec fn spec_uniforms_from(s: Seq<char>, from: int) -> Seq<Seq<char>>
    decreases s.len() - from,
    via spec_uniforms_from_decreases
{
    if from >= s.len() {
        Seq::empty()
    } else {
        let e = spec_scan_to(s, from, '\n');
        let line = spec_strip_cr(s.subrange(from, e));
        spec_uniform_of_line(line) + if e < s.len() {
            spec_uniforms_from(s, e + 1)
        } else {
            Seq::empty()
        }
    }
}

#[via_fn]
proof fn spec_uniforms_from_decreases(s: Seq<char>, from: int) {
    if from < s.len() {
        lemma_scan_to_bounds(s, from, '\n');
    }
}

/// Every uniform name a shader source declares, in source order,
/// duplicates kept.
pub open spec fn spec_parse_uniforms(s: Seq<char>) -> Seq<Seq<char>> {
    spec_uniforms_from(s, 0)
}

/// First occurrence of `stop` in `s` within `[from, to)`, or `to` when
/// there is none.
fn scan_to_char(s: &str, from: usize, to: usize, stop: char) -> (e: usize)
    requires
        from <= to,
        to as int <= s@.len(),
    ensures
        from <= e <= to,
        forall|j: int| from <= j < e ==> s@[j] != stop,
        e < to ==> s@[e as int] == stop,
{
    let mut e: usize = from;
    while e < to
        invariant
            from <= e <= to,
            to as int <= s@.len(),
            forall|j: int| from <= j < e ==> s@[j] != stop,
        decreases to - e,
    {
        if s.get_char(e) == stop {
            return e;
        }
        e += 1;
    }
    e
}

/// First token separator in `s` within `[from, to)`, or `to` when there
/// is none.
fn scan_space(s: &str, from: usize, to: usize) -> (e: usize)
    requires
        from <= to,
        to as int <= s@.len(),
    ensures
        from <= e <= to,
        forall|j: int| from <= j < e ==> !spec_is_space(s@[j]),
        e < to ==> spec_is_space(s@[e as int]),
{
    let mut e: usize = from;
    while e < to
        invariant
            from <= e <= to,
            to as int <= s@.len(),
            forall|j: int| from <= j < e ==> !spec_is_space(s@[j]),
        decreases to - e,
    {
        if is_space(s.get_char(e)) {
            return e;
        }
        e += 1;
    }
    e
}

/// First non-separator in `s` within `[from, to)`, or `to` when there is
/// none.
fn scan_nonspace(s: &str, from: usize, to: usize) -> (e: usize)
    requires
        from <= to,
        to as int <= s@.len(),
    ensures
        from <= e <= to,
        forall|j: int| from <= j < e ==> spec_is_space(s@[j]),
        e < to ==> !spec_is_space(s@[e as int]),
{
    let mut e: usize = from;
    while e < to
        invariant
            from <= e <= to,
            to as int <= s@.len(),
            forall|j: int| from <= j < e ==> spec_is_space(s@[j]),
        decreases to - e,
    {
        if !is_space(s.get_char(e)) {
            return e;
        }
        e += 1;
    }
    e
}

/// The name one line declares, if any: the line is `src[pos, lt)`, its
/// ending already removed.
#[verifier::loop_isolation(false)]
#[verifier::rlimit(30)]
fn line_uniform(src: &str, pos: usize, lt: usize) -> (r: Option<String>)
    requires
        pos <= lt,
        lt as int <= src@.len(),
    ensures
        ({
            let line = src@.subrange(pos as int, lt as int);
            match r {
                Some(n) => spec_uniform_of_line(line) == seq![n@],
                None => spec_uniform_of_line(line) == Seq::<Seq<char>>::empty(),
            }
        }),
{
    let ghost line = src@.subrange(pos as int, lt as int);
    proof {
        assert(forall|j: int| 0 <= j < line.len() ==> line[j] == src@[pos + j]);
    }
    let is_decl = lt - pos >= 8 && src.get_char(pos) == 'u' && src.get_char(pos + 1) == 'n'
        && src.get_char(pos + 2) == 'i' && src.get_char(pos + 3) == 'f' && src.get_char(pos + 4)
        == 'o' && src.get_char(pos + 5) == 'r' && src.get_char(pos + 6) == 'm' && src.get_char(
        pos + 7,
    ) == ' ';
    proof {
        assert(is_decl == spec_starts_with_uniform(line));
    }
    if !is_decl {
        return None;
    }
    let t0s: usize = scan_nonspace(src, pos, lt);
    proof {
        lemma_scan_nonspace_at(line, 0, t0s - pos);
    }
    let t0e: usize = scan_space(src, t0s, lt);
    proof {
        lemma_scan_space_at(line, t0s - pos, t0e - pos);
    }
    let t1s: usize = scan_nonspace(src, t0e, lt);
    proof {
        lemma_scan_nonspace_at(line, t0e - pos, t1s - pos);
    }
    let t1e: usize = scan_space(src, t1s, lt);
    proof {
        lemma_scan_space_at(line, t1s - pos, t1e - pos);
    }
    let t2s: usize = scan_nonspace(src, t1e, lt);
    proof {
        lemma_scan_nonspace_at(line, t1e - pos, t2s - pos);
    }
    if t2s >= lt {
        return None;
    }
    let t2e: usize = scan_space(src, t2s, lt);
    proof {
        lemma_scan_space_at(line, t2s - pos, t2e - pos);
    }
    let mut te: usize = t2e;
    while te > t2s && src.get_char(te - 1) == ';'
        invariant
            t2s <= te <= t2e,
            forall|j: int| te <= j < t2e ==> src@[j] == ';',
        decreases te,
    {
        te -= 1;
    }
    let ghost token = line.subrange(t2s - pos, t2e - pos);
    proof {
        assert(forall|j: int| 0 <= j < token.len() ==> token[j] == src@[t2s + j]);
        lemma_trim_semis_at(token, te - t2s);
        assert(token.take(te - t2s) =~= src@.subrange(t2s as int, te as int));
    }
    let name = src.substring_char(t2s, te);
    proof {
        assert(spec_uniform_of_line(line) =~~= seq![name@]);
    }
    Some(String::from_str(name))
}

/// The uniform names a shader source declares: for every line that opens
/// with `uniform ` and has at least three whitespace-separated tokens, the
/// third token with trailing semicolons removed, in source order,
/// duplicates kept.
#[verifier::loop_isolation(false)]
pub fn parse_uniforms(src: &str) -> (r: Vec<String>)
    ensures
        r.deep_view() == spec_parse_uniforms(src@),
{
    let len: usize = src.unicode_len();
    let mut r: Vec<String> = Vec::new();
    let mut pos: usize = 0;
    while pos < len
        invariant
            pos <= len,
            spec_parse_uniforms(src@) == r.deep_view() + spec_uniforms_from(src@, pos as int),
        decreases len - pos,
    {
        let ghost r_entry = r.deep_view();
        let e: usize = scan_to_char(src, pos, len, '\n');
        proof {
            lemma_scan_to_at(src@, pos as int, e as int, '\n');
        }
        let lt: usize = if e > pos && src.get_char(e - 1) == '\r' {
            e - 1
        } else {
            e
        };
        let ghost line = spec_strip_cr(src@.subrange(pos as int, e as int));
        proof {
            assert(line =~= src@.subrange(pos as int, lt as int));
        }
        match line_uniform(src, pos, lt) {
            Some(n) => {
                r.push(n);
                proof {
                    assert(r.deep_view() =~~= r_entry.push(n@));
                }
            },
            None => {},
        }
        proof {
            assert(spec_uniforms_from(src@, pos as int) =~~= spec_uniform_of_line(line) + (if e
                < len {
                spec_uniforms_from(src@, e as int + 1)
            } else {
                Seq::empty()
            }));
            assert(r.deep_view() =~~= r_entry + spec_uniform_of_line(line));
        }
        pos = if e < len {
            e + 1
        } else {
            len
        };
        proof {
            assert(spec_parse_uniforms(src@) =~~= r.deep_view() + spec_uniforms_from(
                src@,
                pos as int,
            ));
        }
    }
    r
}

/// What to hand the driver's compiler for one stage: the kind inferred
/// from the source path, and its driver-side enumerant.
#[derive(Debug, Clone, Copy, PartialEq, Eq, Structural)]
pub struct ShaderPlan {
    pub shader_type: ShaderType,
    pub gl_kind: u32,
}

/// The decisions before any GPU work on one stage: a source that could
/// not be read fails as unreadable; a path whose extension names no stage
/// kind fails closed as unknown; otherwise the stage's kind and its
/// driver-side enumerant are fixed.
pub fn prepare_shader(path: &str, source: Option<&str>) -> (r: Result<ShaderPlan, RenderError>)
    ensures
        r is Ok <==> (source is Some && spec_shader_type(path@) is Some),
        source is None ==> r == Err::<ShaderPlan, RenderError>(RenderError::SourceUnreadable),
        source is Some && spec_shader_type(path@) is None ==> r == Err::<ShaderPlan, RenderError>(
            RenderError::UnknownStageKind,
        ),
        r matches Ok(p) ==> Some(p.shader_type) == spec_shader_type(path@) && p.gl_kind
            == spec_gl_shader_type(p.shader_type),
{
    if source.is_none() {
        return Err(RenderError::SourceUnreadable);
    }
    match get_shader_type(path) {
        None => Err(RenderError::UnknownStageKind),
        Some(t) => match get_gl_shader_type(&Some(t)) {
            Some(g) => Ok(ShaderPlan { shader_type: t, gl_kind: g }),
            None => unreached(),
        },
    }
}

/// The decisions after the driver compiled one stage: a null shader
/// object fails as exhausted; a failed compile status surfaces the
/// driver's diagnostic log and yields no stage; a successful compile
/// yields the stage, carrying its kind and the uniforms its source
/// declares.
pub fn finish_shader(path: &str, source: &str, addr: u32, compiled: bool, log: String) -> (r:
    Result<Shader, RenderError>)
    requires
        spec_shader_type(path@) is Some,
    ensures
        r is Ok <==> (addr != 0 && compiled),
        addr == 0 ==> r == Err::<Shader, RenderError>(RenderError::ResourceExhausted),
        addr != 0 && !compiled ==> r == Err::<Shader, RenderError>(RenderError::CompileError(log)),
        r matches Ok(s) ==> s.wf() && s.addr == addr && s.path@ == path@ && s.uniforms.deep_view()
            == spec_parse_uniforms(source@) && Some(s.shader_type) == spec_shader_type(path@),
{
    if addr == 0 {
        return Err(RenderError::ResourceExhausted);
    }
    if !compiled {
        return Err(RenderError::CompileError(log));
    }
    let st = match get_shader_type(path) {
        Some(t) => t,
        None => unreached(),
    };
    Ok(
        Shader {
            addr,
            path: String::from_str(path),
            uniforms: parse_uniforms(source),
            shader_type: st,
        },
    )
}

} // verus!
