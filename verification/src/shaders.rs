//! Shader stages and linked programs.
//!
//! A stage's kind is inferred from its source path's extension, its declared
//! uniforms are parsed out of the source text, and a linked program caches
//! the uniform locations the driver reports.

pub mod shader_loader;

use std::rc::Rc;
use vstd::prelude::*;
use vstd::string::StrSliceExecFns;

use crate::error::RenderError;

verus! {

/// The pipeline step a shader stage belongs to, inferred from the source
/// file's extension.
#[derive(Debug, Clone, Copy, PartialEq, Eq, Structural)]
pub enum ShaderType {
    VERTEX,
    FRAGMENT,
    GEOMETRY,
    COMPUTE,
}

/// One compiled shader stage: the driver's shader object, the source
/// path it came from, the uniform names its source declares, and its
/// pipeline kind.  Immutable once compiled; programs share stages by
/// reference.
#[derive(Debug)]
pub struct Shader {
    pub addr: u32,
    pub path: String,
    pub uniforms: Vec<String>,
    pub shader_type: ShaderType,
}

impl Shader {
    /// A compiled stage always holds a non-null shader object.
    pub open spec fn wf(self) -> bool {
        self.addr != 0
    }
}

/// `GL_VERTEX_SHADER`
pub const GL_VERTEX_SHADER: u32 = 0x8B31;

/// `GL_FRAGMENT_SHADER`
pub const GL_FRAGMENT_SHADER: u32 = 0x8B30;

/// `GL_GEOMETRY_SHADER`
pub const GL_GEOMETRY_SHADER: u32 = 0x8DD9;

/// `GL_COMPUTE_SHADER`
pub const GL_COMPUTE_SHADER: u32 = 0x91B9;

/// Index of the first character of a path's final component: the position
/// right after the last `/`, or 0 when the path has none.
pub open spec fn spec_file_name_start(p: Seq<char>) -> int
    decreases p.len(),
{
    if p.len() == 0 {
        0
    } else if p[p.len() - 1] == '/' {
        p.len() as int
    } else {
        spec_file_name_start(p.drop_last())
    }
}

/// Index of the last `.` in `s`, or -1 when there is none.
pub open spec fn spec_last_dot(s: Seq<char>) -> int
    decreases s.len(),
{
    if s.len() == 0 {
        -1
    } else if s[s.len() - 1] == '.' {
        s.len() - 1
    } else {
        spec_last_dot(s.drop_last())
    }
}

/// The extension of a path: what follows the last `.` of its final
/// component, provided that dot is not the component's first character (a
/// leading dot marks a hidden name, not an extension).
pub open spec fn spec_extension(p: Seq<char>) -> Option<Seq<char>> {
    let name = p.subrange(spec_file_name_start(p), p.len() as int);
    let d = spec_last_dot(name);
    if d <= 0 {
        None
    } else {
        Some(name.subrange(d + 1, name.len() as int))
    }
}

/// The stage kind an extension names: `vs`, `fs`, `gs` or `cs`.
pub open spec fn spec_kind_of_ext(e: Seq<char>) -> Option<ShaderType> {
    if e.len() == 2 && e[1] == 's' {
        if e[0] == 'v' {
            Some(ShaderType::VERTEX)
        } else if e[0] == 'f' {
            Some(ShaderType::FRAGMENT)
        } else if e[0] == 'g' {
            Some(ShaderType::GEOMETRY)
        } else if e[0] == 'c' {
            Some(ShaderType::COMPUTE)
        } else {
            None
        }
    } else {
        None
    }
}

/// The stage kind a source path names, from its extension alone.
pub open spec fn spec_shader_type(p: Seq<char>) -> Option<ShaderType> {
    match spec_extension(p) {
        Some(e) => spec_kind_of_ext(e),
        None => None,
    }
}

proof fn lemma_file_name_start_at(p: Seq<char>, i: int)
    requires
        0 <= i <= p.len(),
        forall|j: int| i <= j < p.len() ==> p[j] != '/',
        i > 0 ==> p[i - 1] == '/',
    ensures
        spec_file_name_start(p) == i,
    decreases p.len(),
{
    if i == p.len() {
    } else {
        lemma_file_name_start_at(p.drop_last(), i);
    }
}

proof fn lemma_last_dot_at(s: Seq<char>, d: int)
    requires
        -1 <= d < s.len(),
        d >= 0 ==> s[d] == '.',
        forall|j: int| d < j < s.len() ==> s[j] != '.',
    ensures
        spec_last_dot(s) == d,
    decreases s.len(),
{
    if s.len() == 0 {
    } else if d == s.len() - 1 {
    } else {
        lemma_last_dot_at(s.drop_last(), d);
    }
}

/// The pipeline stage a shader source path belongs to, inferred from its
/// file extension: `.vs`, `.fs`, `.gs` or `.cs`; any other path yields
/// `None` and the stage fails closed.
pub fn get_shader_type(path: &str) -> (r: Option<ShaderType>)
    ensures
        r == spec_shader_type(path@),
{
    let len = path.unicode_len();
    let mut k: usize = 0;
    let mut start: usize = 0;
    while k < len
        invariant
            start <= k <= len,
            len == path@.len(),
            start > 0 ==> path@[start - 1] == '/',
            forall|j: int| start <= j < k ==> path@[j] != '/',
        decreases len - k,
    {
        if path.get_char(k) == '/' {
            start = k + 1;
        }
        k += 1;
    }
    proof {
        lemma_file_name_start_at(path@, start as int);
    }
    let ghost name = path@.subrange(start as int, len as int);
    let mut i: usize = start;
    let mut dot: usize = 0;
    let mut have_dot: bool = false;
    while i < len
        invariant
            start <= i <= len,
            len == path@.len(),
            have_dot ==> start <= dot < i && path@[dot as int] == '.',
            have_dot ==> forall|j: int| dot < j < i ==> path@[j] != '.',
            !have_dot ==> forall|j: int| start <= j < i ==> path@[j] != '.',
        decreases len - i,
    {
        if path.get_char(i) == '.' {
            dot = i;
            have_dot = true;
        }
        i += 1;
    }
    proof {
        if have_dot {
            assert forall|j: int| (dot - start) < j < name.len() implies name[j] != '.' by {
                assert(name[j] == path@[start + j]);
            }
            lemma_last_dot_at(name, dot - start as int);
        } else {
            assert forall|j: int| -1 < j < name.len() implies name[j] != '.' by {
                assert(name[j] == path@[start + j]);
            }
            lemma_last_dot_at(name, -1);
        }
    }
    if !have_dot || dot == start {
        return None;
    }
    let ghost ext = name.subrange(dot - start as int + 1, name.len() as int);
    proof {
        assert(spec_extension(path@) == Some(ext));
        assert(ext =~= path@.subrange(dot as int + 1, len as int));
    }
    if len - dot != 3 {
        return None;
    }
    let c0 = path.get_char(dot + 1);
    let c1 = path.get_char(dot + 2);
    proof {
        assert(ext[0] == path@[dot + 1]);
        assert(ext[1] == path@[dot + 2]);
    }
    if c1 != 's' {
        return None;
    }
    if c0 == 'v' {
        Some(ShaderType::VERTEX)
    } else if c0 == 'f' {
        Some(ShaderType::FRAGMENT)
    } else if c0 == 'g' {
        Some(ShaderType::GEOMETRY)
    } else if c0 == 'c' {
        Some(ShaderType::COMPUTE)
    } else {
        None
    }
}

/// The driver-side enumerant of a stage kind, as the GPU API defines it.
pub open spec fn spec_gl_shader_type(t: ShaderType) -> u32 {
    match t {
        ShaderType::VERTEX => GL_VERTEX_SHADER,
        ShaderType::FRAGMENT => GL_FRAGMENT_SHADER,
        ShaderType::GEOMETRY => GL_GEOMETRY_SHADER,
        ShaderType::COMPUTE => GL_COMPUTE_SHADER,
    }
}

/// The driver-side enumerant for a stage kind, as the GPU API defines it.
pub fn get_gl_shader_type(shader_type: &Option<ShaderType>) -> (r: Option<u32>)
    ensures
        r == match *shader_type {
            Some(t) => Some(spec_gl_shader_type(t)),
            None => None::<u32>,
        },
{
    match shader_type {
        Some(ShaderType::VERTEX) => Some(GL_VERTEX_SHADER),
        Some(ShaderType::FRAGMENT) => Some(GL_FRAGMENT_SHADER),
        Some(ShaderType::GEOMETRY) => Some(GL_GEOMETRY_SHADER),
        Some(ShaderType::COMPUTE) => Some(GL_COMPUTE_SHADER),
        None => None,
    }
}

/// The location the cache's first entry for `name` records, if any.
pub open spec fn spec_lookup(entries: Seq<(String, i32)>, name: Seq<char>) -> Option<i32>
    decreases entries.len(),
{
    if entries.len() == 0 {
        None
    } else if entries[0].0@ == name {
        Some(entries[0].1)
    } else {
        spec_lookup(entries.drop_first(), name)
    }
}

proof fn lemma_lookup_push(entries: Seq<(String, i32)>, e: (String, i32), n: Seq<char>)
    ensures
        spec_lookup(entries.push(e), n) == (match spec_lookup(entries, n) {
            Some(l) => Some(l),
            None => if e.0@ == n {
                Some(e.1)
            } else {
                None::<i32>
            },
        }),
    decreases entries.len(),
{
    let p = entries.push(e);
    assert(p.len() == entries.len() + 1);
    if entries.len() == 0 {
        assert(p[0] == e);
        assert(spec_lookup(entries, n) is None);
        if e.0@ == n {
            assert(spec_lookup(p, n) == Some(e.1));
        } else {
            assert(p.drop_first() =~= Seq::<(String, i32)>::empty());
            assert(spec_lookup(p, n) == spec_lookup(p.drop_first(), n));
            assert(spec_lookup(p, n) is None);
        }
    } else {
        assert(p[0] == entries[0]);
        lemma_lookup_push(entries.drop_first(), e, n);
        if entries[0].0@ == n {
            assert(spec_lookup(p, n) == Some(entries[0].1));
            assert(spec_lookup(entries, n) == Some(entries[0].1));
        } else {
            assert(p.drop_first() =~= entries.drop_first().push(e));
            assert(spec_lookup(p, n) == spec_lookup(entries.drop_first().push(e), n));
            assert(spec_lookup(entries, n) == spec_lookup(entries.drop_first(), n));
        }
    }
}

proof fn lemma_lookup_none(entries: Seq<(String, i32)>, n: Seq<char>)
    ensures
        spec_lookup(entries, n) is None <==> (forall|i: int|
            0 <= i < entries.len() ==> (#[trigger] entries[i]).0@ != n),
    decreases entries.len(),
{
    if entries.len() > 0 {
        lemma_lookup_none(entries.drop_first(), n);
        assert(forall|i: int|
            1 <= i < entries.len() ==> (#[trigger] entries[i]) == entries.drop_first()[i - 1]);
    }
}

/// Character-wise string equality, stated over the views.
fn str_eq(a: &str, b: &str) -> (r: bool)
    ensures
        r == (a@ == b@),
{
    let la = a.unicode_len();
    let lb = b.unicode_len();
    if la != lb {
        return false;
    }
    let mut i: usize = 0;
    while i < la
        invariant
            i <= la,
            la == a@.len(),
            la == b@.len(),
            forall|j: int| 0 <= j < i ==> a@[j] == b@[j],
        decreases la - i,
    {
        if a.get_char(i) != b.get_char(i) {
            return false;
        }
        i += 1;
    }
    proof {
        assert(a@ =~= b@);
    }
    true
}

/// One linked program: the driver's program object, the stages it was
/// linked from (shared by reference, possibly with other programs), and
/// the uniform locations resolved so far, cached for the program's life.
#[derive(Debug)]
pub struct Program {
    pub addr: u32,
    pub shader: Vec<Rc<Shader>>,
    pub uniforms_location: Vec<(String, i32)>,
}

impl Program {
    /// A program holds a non-null program object, was linked from at
    /// least one compiled stage, and caches at most one location per
    /// uniform name.
    pub open spec fn wf(self) -> bool {
        &&& self.addr != 0
        &&& self.shader@.len() >= 1
        &&& forall|i: int| 0 <= i < self.shader@.len() ==> (#[trigger] self.shader@[i]).wf()
        &&& forall|i: int, j: int|
            #![trigger self.uniforms_location@[i], self.uniforms_location@[j]]
            0 <= i < j < self.uniforms_location@.len() ==> self.uniforms_location@[i].0@
                != self.uniforms_location@[j].0@
    }

    /// The location the cache records for `name`, if one was resolved.
    pub open spec fn spec_cached(self, name: Seq<char>) -> Option<i32> {
        spec_lookup(self.uniforms_location@, name)
    }

    /// The cached location of `name`: `None` means the name was never
    /// resolved and the caller must query the driver once and record the
    /// answer; a cached sentinel location stays a silent no-op.
    pub fn get_uniform_location(&self, name: &str) -> (r: Option<i32>)
        ensures
            r == self.spec_cached(name@),
    {
        let mut i: usize = 0;
        proof {
            assert(self.uniforms_location@.skip(0) =~= self.uniforms_location@);
        }
        while i < self.uniforms_location.len()
            invariant
                i <= self.uniforms_location@.len(),
                spec_lookup(self.uniforms_location@.skip(i as int), name@) == self.spec_cached(
                    name@,
                ),
            decreases self.uniforms_location@.len() - i,
        {
            proof {
                assert(self.uniforms_location@.skip(i as int)[0] == self.uniforms_location@[
                    i as int]);
                assert(self.uniforms_location@.skip(i as int).drop_first()
                    =~= self.uniforms_location@.skip(i as int + 1));
            }
            if str_eq(self.uniforms_location[i].0.as_str(), name) {
                return Some(self.uniforms_location[i].1);
            }
            i += 1;
        }
        proof {
            assert(self.uniforms_location@.skip(self.uniforms_location@.len() as int)
                =~= Seq::<(String, i32)>::empty());
        }
        None
    }

    /// Record the location the driver reported for `name`.
    ///
    /// The first record for a name wins and later ones change nothing, so
    /// a location is resolved at most once for the program's life; every
    /// other name's cache entry is untouched.
    pub fn set_uniform_location(&mut self, name: &str, loc: i32)
        requires
            old(self).wf(),
        ensures
            final(self).wf(),
            final(self).addr == old(self).addr,
            final(self).shader == old(self).shader,
            old(self).spec_cached(name@) is Some ==> *final(self) == *old(self),
            final(self).spec_cached(name@) == (match old(self).spec_cached(name@) {
                Some(l) => Some(l),
                None => Some(loc),
            }),
            forall|n: Seq<char>|
                n != name@ ==> #[trigger] final(self).spec_cached(n) == old(self).spec_cached(n),
    {
        let cached = self.get_uniform_location(name);
        if cached.is_some() {
            return;
        }
        let entry = (String::from_str(name), loc);
        proof {
            lemma_lookup_none(self.uniforms_location@, name@);
            assert forall|n: Seq<char>| true implies #[trigger] spec_lookup(
                self.uniforms_location@.push(entry),
                n,
            ) == (match spec_lookup(self.uniforms_location@, n) {
                Some(l) => Some(l),
                None => if n == name@ {
                    Some(loc)
                } else {
                    None::<i32>
                },
            }) by {
                lemma_lookup_push(self.uniforms_location@, entry, n);
            }
        }
        self.uniforms_location.push(entry);
        proof {
            lemma_lookup_none(old(self).uniforms_location@, name@);
            assert(forall|i: int|
                0 <= i < old(self).uniforms_location@.len() ==> (#[trigger] self.uniforms_location@[
                i]) == old(self).uniforms_location@[i]);
        }
    }
}

/// The decisions after the driver linked a program from `shader`'s
/// already-compiled stages: a null program object fails as exhausted, a
/// failed link status surfaces the driver's log, and a successful link
/// yields the program with an empty location cache.
pub fn finish_program(shader: Vec<Rc<Shader>>, addr: u32, linked: bool, log: String) -> (r: Result<
    Program,
    RenderError,
>)
    requires
        shader@.len() >= 1,
        forall|i: int| 0 <= i < shader@.len() ==> (#[trigger] shader@[i]).wf(),
    ensures
        r is Ok <==> (addr != 0 && linked),
        addr == 0 ==> r == Err::<Program, RenderError>(RenderError::ResourceExhausted),
        addr != 0 && !linked ==> r == Err::<Program, RenderError>(RenderError::LinkError(log)),
        r matches Ok(p) ==> p.wf() && p.addr == addr && p.shader == shader
            && p.uniforms_location@ == Seq::<(String, i32)>::empty(),
{
    if addr == 0 {
        return Err(RenderError::ResourceExhausted);
    }
    if !linked {
        return Err(RenderError::LinkError(log));
    }
    Ok(Program { addr, shader, uniforms_location: Vec::new() })
}

} // verus!
