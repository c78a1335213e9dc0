use vstd::prelude::*;

verus! {

/// An untagged sum: a value of one of two shapes.
#[derive(Clone, Debug)]
pub enum Either<Left, Right> {
    Left(Left),
    Right(Right),
}

impl<Left, Right> Either<Left, Right> {
    pub open spec fn left_of(&self) -> Option<Left> {
        match self {
            Either::Left(a) => Some(*a),
            Either::Right(_) => None,
        }
    }

    pub open spec fn right_of(&self) -> Option<Right> {
        match self {
            Either::Left(_) => None,
            Either::Right(b) => Some(*b),
        }
    }

    pub fn as_left(&self) -> (r: Option<&Left>)
        ensures
            r matches Some(a) ==> self.left_of() == Some(*a),
            r is None <==> self.left_of() is None,
    {
        match self {
            Either::Left(a) => Some(a),
            _ => None,
        }
    }

    pub fn as_right(&self) -> (r: Option<&Right>)
        ensures
            r matches Some(b) ==> self.right_of() == Some(*b),
            r is None <==> self.right_of() is None,
    {
        match self {
            Either::Right(b) => Some(b),
            _ => None,
        }
    }

    pub fn into_left(self) -> (r: Option<Left>)
        ensures
            r == self.left_of(),
    {
        match self {
            Either::Left(a) => Some(a),
            _ => None,
        }
    }

    pub fn into_right(self) -> (r: Option<Right>)
        ensures
            r == self.right_of(),
    {
        match self {
            Either::Right(b) => Some(b),
            _ => None,
        }
    }
}

/// Prefix and suffix removal on string slices.
pub trait StrCompat {
    spec fn chars(&self) -> Seq<char>;

    fn strip_prefix<'a>(&'a self, prefix: &str) -> (r: Option<&'a str>)
        ensures
            r is Some <==> self.chars().len() >= prefix@.len() && self.chars().subrange(
                0,
                prefix@.len() as int,
            ) == prefix@,
            r matches Some(rest) ==> rest@ == self.chars().subrange(
                prefix@.len() as int,
                self.chars().len() as int,
            ),
    ;

    fn strip_suffix<'a>(&'a self, suffix: &str) -> (r: Option<&'a str>)
        ensures
            r is Some <==> self.chars().len() >= suffix@.len() && self.chars().subrange(
                self.chars().len() - suffix@.len(),
                self.chars().len() as int,
            ) == suffix@,
            r matches Some(rest) ==> rest@ == self.chars().subrange(
                0,
                self.chars().len() - suffix@.len(),
            ),
    ;
}

impl StrCompat for str {
    open spec fn chars(&self) -> Seq<char> {
        self@
    }

    fn strip_prefix<'a>(&'a self, prefix: &str) -> (r: Option<&'a str>) {
        let n = self.unicode_len();
        let p = prefix.unicode_len();
        if n < p {
            return None;
        }
        let mut i: usize = 0;
        while i < p
            invariant
                i <= p <= n,
                n == self@.len(),
                p == prefix@.len(),
                forall|j: int| 0 <= j < i ==> self@[j] == prefix@[j],
            decreases p - i,
        {
            if self.get_char(i) != prefix.get_char(i) {
                assert(self@.subrange(0, p as int)[i as int] != prefix@[i as int]);
                return None;
            }
            i = i + 1;
        }
        assert(self@.subrange(0, p as int) =~= prefix@);
        Some(self.substring_char(p, n))
    }

    fn strip_suffix<'a>(&'a self, suffix: &str) -> (r: Option<&'a str>) {
        let n = self.unicode_len();
        let p = suffix.unicode_len();
        if n < p {
            return None;
        }
        let start: usize = n - p;
        let mut i: usize = 0;
        while i < p
            invariant
                i <= p <= n,
                start == n - p,
                n == self@.len(),
                p == suffix@.len(),
                forall|j: int| 0 <= j < i ==> self@[start + j] == suffix@[j],
            decreases p - i,
        {
            if self.get_char(start + i) != suffix.get_char(i) {
                assert(self@.subrange(start as int, n as int)[i as int] != suffix@[i as int]);
                return None;
            }
            i = i + 1;
        }
        assert(self@.subrange(start as int, n as int) =~= suffix@);
        Some(self.substring_char(0, start))
    }
}

/// Calls a function on a value, in method position.
pub trait Apply: Sized {
    fn apply<F: FnOnce(Self) -> T, T>(self, f: F) -> (r: T)
        requires
            f.requires((self,)),
        ensures
            f.ensures((self,), r),
    ;
}

impl<A: Sized> Apply for A {
    fn apply<F: FnOnce(A) -> T, T>(self, f: F) -> (r: T) {
        f(self)
    }
}

/// Calls a function on a shared reference, in method position.
pub trait ApplyRef {
    fn apply_ref<F: FnOnce(&Self) -> T, T>(&self, f: F) -> (r: T)
        requires
            f.requires((self,)),
        ensures
            f.ensures((self,), r),
    ;
}

impl<A> ApplyRef for A {
    fn apply_ref<F: FnOnce(&A) -> T, T>(&self, f: F) -> (r: T) {
        f(self)
    }
}

} // verus!
