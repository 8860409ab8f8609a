//! Names and paths of assets, and how they resolve under a scope root.
//!
//! A scope names a directory on disk. An asset is addressed by a scope, a
//! path below the scope's root and a name in that path. The rules here keep
//! every resolved location below the root: a name holds no separator and
//! does not start with a dot, and a path holds no `..`, no doubled or
//! leading separator and no backslash.

use crate::crypto::is_alphanumeric;
use crate::text::{chars_of, joined, str_eq};
use vstd::prelude::*;

verus! {

/// Why a scope, a name or a path was refused.
#[derive(Clone, Copy, Debug, PartialEq, Eq, Structural)]
pub enum PathError {
    /// No scope is configured under the given name.
    InvalidScope,
    /// The asset name breaks the rules for names.
    InvalidName,
    /// The asset path breaks the rules for paths.
    InvalidPath,
}

/// Whether `c` may stand in an asset name.
pub open spec fn is_name_char(c: char) -> bool {
    is_alphanumeric(c) || c == '-' || c == '_' || c == '.' || c == ':' || c == '%' || c == '$'
        || c == '[' || c == ']' || c == '(' || c == ')' || c == '{' || c == '}' || c == '@' || c
        == '!' || c == ' '
}

/// Whether `c` may stand in an asset path.
pub open spec fn is_path_char(c: char) -> bool {
    is_alphanumeric(c) || c == '-' || c == '_' || c == '.' || c == ':' || c == '%' || c == '$'
        || c == '/' || c == ' '
}

/// Whether `first` directly followed by `second` occurs in `text`.
pub open spec fn has_pair(text: Seq<char>, first: char, second: char) -> bool {
    exists|i: int|
        0 <= i && i + 1 < text.len() && #[trigger] text[i] == first && text[i + 1] == second
}

/// The rules for an asset name.
pub open spec fn name_ok(name: Seq<char>) -> bool {
    &&& forall|i: int| 0 <= i < name.len() ==> is_name_char(#[trigger] name[i])
    &&& !name.contains('/')
    &&& !name.contains('\\')
    &&& !(name.len() > 0 && name[0] == '.')
}

/// The rules for an asset path.
pub open spec fn path_ok(path: Seq<char>) -> bool {
    &&& forall|i: int| 0 <= i < path.len() ==> is_path_char(#[trigger] path[i])
    &&& !has_pair(path, '.', '.')
    &&& !has_pair(path, '/', '/')
    &&& !path.contains('\\')
    &&& !(path.len() > 0 && path[0] == '/')
}

/// `base`, or `base`, a separator and `rest` where `rest` is not empty.
pub open spec fn join(base: Seq<char>, rest: Seq<char>) -> Seq<char> {
    if rest.len() == 0 {
        base
    } else {
        base + seq!['/'] + rest
    }
}

fn is_alphanumeric_char(c: char) -> (b: bool)
    ensures
        b == is_alphanumeric(c),
{
    ('a' <= c && c <= 'z') || ('A' <= c && c <= 'Z') || ('0' <= c && c <= '9')
}

fn name_char_allowed(c: char) -> (b: bool)
    ensures
        b == is_name_char(c),
{
    is_alphanumeric_char(c) || c == '-' || c == '_' || c == '.' || c == ':' || c == '%' || c
        == '$' || c == '[' || c == ']' || c == '(' || c == ')' || c == '{' || c == '}' || c == '@'
        || c == '!' || c == ' '
}

fn path_char_allowed(c: char) -> (b: bool)
    ensures
        b == is_path_char(c),
{
    is_alphanumeric_char(c) || c == '-' || c == '_' || c == '.' || c == ':' || c == '%' || c
        == '$' || c == '/' || c == ' '
}

/// Checks an asset name against the rules for names.
pub fn validate_name(name: &str) -> (verdict: Result<(), PathError>)
    ensures
        verdict is Ok <==> name_ok(name@),
        verdict matches Err(e) ==> e == PathError::InvalidName,
{
    let chars = chars_of(name);
    let mut i: usize = 0;
    while i < chars.len()
        invariant
            i <= chars.len(),
            chars@ == name@,
            forall|j: int| 0 <= j < i ==> is_name_char(#[trigger] name@[j]),
            forall|j: int| 0 <= j < i ==> name@[j] != '/' && name@[j] != '\\',
            i > 0 ==> name@[0] != '.',
        decreases chars.len() - i,
    {
        let c = chars[i];
        if !name_char_allowed(c) || c == '/' || c == '\\' || (i == 0 && c == '.') {
            assert(name@[i as int] == c);
            return Err(PathError::InvalidName);
        }
        i += 1;
    }
    Ok(())
}

/// Checks an asset path against the rules for paths.
pub fn validate_path(path: &str) -> (verdict: Result<(), PathError>)
    ensures
        verdict is Ok <==> path_ok(path@),
        verdict matches Err(e) ==> e == PathError::InvalidPath,
{
    let chars = chars_of(path);
    let mut i: usize = 0;
    while i < chars.len()
        invariant
            i <= chars.len(),
            chars@ == path@,
            forall|j: int| 0 <= j < i ==> is_path_char(#[trigger] path@[j]),
            forall|j: int| 0 <= j < i ==> path@[j] != '\\',
            forall|j: int|
                0 <= j && j + 1 < i ==> !(#[trigger] path@[j] == '.' && path@[j + 1] == '.'),
            forall|j: int|
                0 <= j && j + 1 < i ==> !(#[trigger] path@[j] == '/' && path@[j + 1] == '/'),
            i > 0 ==> path@[0] != '/',
        decreases chars.len() - i,
    {
        let c = chars[i];
        assert(path@[i as int] == c);
        if !path_char_allowed(c) || c == '\\' || (i == 0 && c == '/') {
            return Err(PathError::InvalidPath);
        }
        if i > 0 {
            let before = chars[i - 1];
            if (before == '.' && c == '.') || (before == '/' && c == '/') {
                assert(path@[i - 1] == before);
                assert(has_pair(path@, '.', '.') || has_pair(path@, '/', '/'));
                return Err(PathError::InvalidPath);
            }
        }
        i += 1;
    }
    Ok(())
}

/// A scope: a name and the directory that it stands for.
pub struct CdnScope {
    pub name: String,
    pub path: String,
}

/// The configured scopes. No two have the same name.
pub struct CdnScopes {
    scopes: Vec<CdnScope>,
}

/// The root of the first scope of `scopes` named `name`.
pub open spec fn scope_root(scopes: Seq<CdnScope>, name: Seq<char>) -> Option<Seq<char>>
    decreases scopes.len(),
{
    if scopes.len() == 0 {
        None
    } else if scopes[0].name@ == name {
        Some(scopes[0].path@)
    } else {
        scope_root(scopes.drop_first(), name)
    }
}

impl CdnScopes {
    /// The scopes, in the order in which they were added.
    pub closed spec fn view(&self) -> Seq<CdnScope> {
        self.scopes@
    }

    /// Whether no two scopes have the same name.
    pub open spec fn wf(&self) -> bool {
        forall|i: int, j: int|
            0 <= i < j < self@.len() ==> (#[trigger] self@[i]).name@ != (#[trigger] self@[j]).name@
    }

    /// The root that `name` stands for.
    pub open spec fn root_of(&self, name: Seq<char>) -> Option<Seq<char>> {
        scope_root(self@, name)
    }

    /// No scopes.
    pub fn new() -> (scopes: CdnScopes)
        ensures
            scopes@.len() == 0,
            scopes.wf(),
    {
        CdnScopes { scopes: Vec::new() }
    }

    /// The root of the scope called `name`.
    pub fn lookup(&self, name: &str) -> (root: Option<&String>)
        ensures
            match root {
                Some(path) => self.root_of(name@) == Some(path@),
                None => self.root_of(name@) is None,
            },
    {
        let mut i: usize = 0;
        assert(self@.skip(0) =~= self@);
        while i < self.scopes.len()
            invariant
                i <= self.scopes.len(),
                scope_root(self@, name@) == scope_root(self@.skip(i as int), name@),
            decreases self.scopes.len() - i,
        {
            assert(self@.skip(i as int)[0] == self@[i as int]);
            assert(self@.skip(i as int).drop_first() =~= self@.skip(i + 1));
            if str_eq(self.scopes[i].name.as_str(), name) {
                return Some(&self.scopes[i].path);
            }
            i += 1;
        }
        assert(self@.skip(i as int).len() == 0);
        None
    }

    /// A copy of every scope, in order.
    pub fn list(&self) -> (out: Vec<CdnScope>)
        ensures
            out@.len() == self@.len(),
            forall|i: int|
                0 <= i < out@.len() ==> (#[trigger] out@[i]).name@ == self@[i].name@
                    && out@[i].path@ == self@[i].path@,
    {
        let mut out: Vec<CdnScope> = Vec::new();
        let mut i: usize = 0;
        while i < self.scopes.len()
            invariant
                i <= self.scopes.len(),
                out@.len() == i,
                forall|j: int|
                    0 <= j < i ==> (#[trigger] out@[j]).name@ == self.scopes@[j].name@
                        && out@[j].path@ == self.scopes@[j].path@,
            decreases self.scopes.len() - i,
        {
            out.push(
                CdnScope { name: self.scopes[i].name.clone(), path: self.scopes[i].path.clone() },
            );
            i += 1;
        }
        out
    }

    /// Adds a scope unless one of that name exists. Returns whether it was
    /// added.
    pub fn add(&mut self, name: String, path: String) -> (added: bool)
        requires
            old(self).wf(),
        ensures
            final(self).wf(),
            added == (old(self).root_of(name@) is None),
            added ==> final(self)@ == old(self)@.push(CdnScope { name, path }),
            !added ==> final(self)@ == old(self)@,
            added ==> final(self).root_of(name@) == Some(path@),
    {
        if self.lookup(name.as_str()).is_some() {
            return false;
        }
        proof {
            lemma_scope_root_none(self@, name@);
            lemma_scope_root_push(self@, CdnScope { name, path }, name@);
        }
        self.scopes.push(CdnScope { name, path });
        true
    }
}

/// Where no scope is found under a name, no scope has that name.
pub proof fn lemma_scope_root_none(scopes: Seq<CdnScope>, name: Seq<char>)
    requires
        scope_root(scopes, name) is None,
    ensures
        forall|i: int| 0 <= i < scopes.len() ==> (#[trigger] scopes[i]).name@ != name,
    decreases scopes.len(),
{
    if scopes.len() > 0 {
        lemma_scope_root_none(scopes.drop_first(), name);
        assert forall|i: int| 0 <= i < scopes.len() implies (#[trigger] scopes[i]).name@
            != name by {
            if i > 0 {
                assert(scopes.drop_first()[i - 1] == scopes[i]);
            }
        }
    }
}

/// A scope added at the end is found under its name unless an earlier one
/// has it, and changes nothing for other names.
pub proof fn lemma_scope_root_push(scopes: Seq<CdnScope>, scope: CdnScope, name: Seq<char>)
    ensures
        scope_root(scopes.push(scope), name) == match scope_root(scopes, name) {
            Some(root) => Some(root),
            None => if scope.name@ == name {
                Some(scope.path@)
            } else {
                None
            },
        },
    decreases scopes.len(),
{
    if scopes.len() == 0 {
        assert(scopes.push(scope).drop_first() =~= scopes);
    } else {
        assert(scopes.push(scope).drop_first() =~= scopes.drop_first().push(scope));
        lemma_scope_root_push(scopes.drop_first(), scope, name);
    }
}

/// `base`, or `base`, a separator and `rest` where `rest` is not empty.
pub fn join_path(base: &str, rest: &str) -> (out: String)
    ensures
        out@ == join(base@, rest@),
{
    if rest.is_empty() {
        base.to_owned()
    } else {
        proof {
            reveal_strlit("/");
        }
        let with_separator = joined(base, "/");
        assert("/"@ =~= seq!['/']);
        joined(with_separator.as_str(), rest)
    }
}

/// The location of an asset: a scope root, a path below it and a name.
///
/// A value of this type exists only for a name and a path that passed the
/// rules, so whatever is done with it stays below the root.
pub struct ResolvedPath {
    root: String,
    path: String,
    name: String,
    dir: String,
    full: String,
}

impl ResolvedPath {
    #[verifier::type_invariant]
    spec fn valid(self) -> bool {
        &&& name_ok(self.name@)
        &&& path_ok(self.path@)
        &&& self.dir@ == join(self.root@, self.path@)
        &&& self.full@ == join(self.dir@, self.name@)
    }

    /// The scope's root directory.
    pub closed spec fn root(&self) -> Seq<char> {
        self.root@
    }

    /// The path below the root, as it was given.
    pub closed spec fn path(&self) -> Seq<char> {
        self.path@
    }

    /// The asset's name, as it was given.
    pub closed spec fn name(&self) -> Seq<char> {
        self.name@
    }

    /// The directory that holds the asset: root and path.
    pub closed spec fn dir(&self) -> Seq<char> {
        self.dir@
    }

    /// The asset itself: root, path and name.
    pub closed spec fn full(&self) -> Seq<char> {
        self.full@
    }

    /// The scope's root directory.
    pub fn root_dir(&self) -> (out: &String)
        ensures
            out@ == self.root(),
    {
        &self.root
    }

    /// The directory that holds the asset.
    pub fn asset_dir(&self) -> (out: &String)
        ensures
            out@ == self.dir(),
            out@ == join(self.root(), self.path()),
            path_ok(self.path()),
    {
        proof {
            use_type_invariant(self);
        }
        &self.dir
    }

    /// Whether the asset has a name of its own, and is not the directory
    /// that the path leads to.
    pub fn has_name(&self) -> (named: bool)
        ensures
            named == (self.name().len() > 0),
            named ==> self.full() == self.dir() + seq!['/'] + self.name(),
            !named ==> self.full() == self.dir(),
    {
        proof {
            use_type_invariant(self);
        }
        !self.name.as_str().is_empty()
    }

    /// The asset itself.
    pub fn asset_file(&self) -> (out: &String)
        ensures
            out@ == self.full(),
            out@ == join(join(self.root(), self.path()), self.name()),
            name_ok(self.name()),
            path_ok(self.path()),
    {
        proof {
            use_type_invariant(self);
        }
        &self.full
    }
}

/// What resolving gives for a scope root that may be missing, a name and a
/// path: the first rule that is broken, in the order scope, name, path.
pub open spec fn resolve_refusal(root: Option<Seq<char>>, name: Seq<char>, path: Seq<char>) -> Option<
    PathError,
> {
    if root is None {
        Some(PathError::InvalidScope)
    } else if !name_ok(name) {
        Some(PathError::InvalidName)
    } else if !path_ok(path) {
        Some(PathError::InvalidPath)
    } else {
        None
    }
}

/// Resolves a scope, a path and a name to a location below the scope's
/// root, or says which of them was refused.
pub fn resolve(scopes: &CdnScopes, scope: &str, name: &str, path: &str) -> (result: Result<
    ResolvedPath,
    PathError,
>)
    ensures
        match result {
            Ok(resolved) => {
                &&& resolve_refusal(scopes.root_of(scope@), name@, path@) is None
                &&& scopes.root_of(scope@) == Some(resolved.root())
                &&& resolved.name() == name@
                &&& resolved.path() == path@
                &&& resolved.dir() == join(resolved.root(), path@)
                &&& resolved.full() == join(resolved.dir(), name@)
            },
            Err(e) => resolve_refusal(scopes.root_of(scope@), name@, path@) == Some(e),
        },
{
    let root = match scopes.lookup(scope) {
        Some(root) => root,
        None => {
            return Err(PathError::InvalidScope);
        },
    };
    match validate_name(name) {
        Err(e) => {
            return Err(e);
        },
        Ok(()) => {},
    }
    match validate_path(path) {
        Err(e) => {
            return Err(e);
        },
        Ok(()) => {},
    }
    let dir = join_path(root.as_str(), path);
    let full = join_path(dir.as_str(), name);
    Ok(ResolvedPath { root: root.clone(), path: path.to_owned(), name: name.to_owned(), dir, full })
}

/// A path that holds `..` or a backslash, or starts with a separator, is
/// refused, and so is a name that holds a separator or a backslash or starts
/// with a dot: resolving them gives an error whatever the scope is.
pub proof fn lemma_traversal_refused(root: Option<Seq<char>>, name: Seq<char>, path: Seq<char>)
    requires
        has_pair(path, '.', '.') || path.contains('\\') || (path.len() > 0 && path[0] == '/')
            || name.contains('/') || name.contains('\\') || (name.len() > 0 && name[0] == '.'),
    ensures
        resolve_refusal(root, name, path) is Some,
{
}

/// Whether one of the components of `text`, which `/` separates, is `..`.
pub open spec fn has_parent_component(text: Seq<char>) -> bool {
    exists|i: int|
        {
            &&& 0 <= i && i + 1 < text.len()
            &&& #[trigger] text[i] == '.' && text[i + 1] == '.'
            &&& (i == 0 || text[i - 1] == '/')
            &&& (i + 2 == text.len() || text[i + 2] == '/')
        }
}

/// What a path and a name add to the root.
pub open spec fn relative_part(name: Seq<char>, path: Seq<char>) -> Seq<char> {
    if path.len() == 0 {
        name
    } else {
        join(path, name)
    }
}

/// A resolved location lies below its root: what the path and the name add
/// to the root has no component `..`, holds no backslash and does not start
/// with a separator.
pub proof fn lemma_resolved_below_root(root: Seq<char>, name: Seq<char>, path: Seq<char>)
    requires
        name_ok(name),
        path_ok(path),
    ensures
        join(join(root, path), name) == join(root, relative_part(name, path)),
        !has_parent_component(relative_part(name, path)),
        !relative_part(name, path).contains('\\'),
        relative_part(name, path).len() > 0 ==> relative_part(name, path)[0] != '/',
{
    let rest = relative_part(name, path);
    if path.len() > 0 && name.len() > 0 {
        let slash = seq!['/'];
        assert((root + slash + path) + slash + name =~= root + slash + (path + slash + name));
        assert((path + slash + name).len() > 0);
    }
    assert(join(join(root, path), name) == join(root, rest));
    assert forall|i: int| 0 <= i < rest.len() implies rest[i] != '\\' by {
        if name.len() == 0 {
            assert(path.contains(path[i]));
        } else if path.len() == 0 {
            assert(name.contains(name[i]));
        } else if i < path.len() {
            assert(rest[i] == path[i]);
            assert(path.contains(path[i]));
        } else if i > path.len() {
            assert(rest[i] == name[i - path.len() - 1]);
            assert(name.contains(name[i - path.len() - 1]));
        }
    }
    if rest.len() > 0 && rest[0] == '/' {
        if path.len() == 0 {
            assert(rest[0] == name[0]);
            assert(name.contains(name[0]));
        } else {
            assert(rest[0] == path[0]);
        }
    }
    if has_parent_component(rest) {
        let i = choose|i: int|
            {
                &&& 0 <= i && i + 1 < rest.len()
                &&& #[trigger] rest[i] == '.' && rest[i + 1] == '.'
                &&& (i == 0 || rest[i - 1] == '/')
                &&& (i + 2 == rest.len() || rest[i + 2] == '/')
            };
        if name.len() == 0 {
            assert(path[i] == '.' && path[i + 1] == '.');
        } else if path.len() == 0 {
            if i > 0 {
                assert(name.contains(name[i - 1]));
            }
        } else if i + 1 < path.len() {
            assert(rest[i] == path[i] && rest[i + 1] == path[i + 1]);
            assert(path[i] == '.' && path[i + 1] == '.');
        } else if i + 1 == path.len() {
            assert(rest[i + 1] == '/');
        } else if i == path.len() {
            assert(rest[i] == '/');
        } else {
            let k = i - path.len() - 1;
            assert(rest[i] == name[k]);
            if k == 0 {
                assert(name[0] == '.');
            } else {
                assert(rest[i - 1] == name[k - 1]);
                assert(name.contains(name[k - 1]));
            }
        }
    }
}

} // verus!
