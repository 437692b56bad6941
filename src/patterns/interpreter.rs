//! Interpreter: expressions over named integer variables, evaluated in a context that binds
//! the names.
use vstd::prelude::*;
use vstd::string::StringExecFns;

verus! {

/// The bindings of a context.
pub type Bindings = Map<Seq<char>, isize>;

/// An expression that can be evaluated and written out.
pub trait Expression {
    /// Whether every variable of the expression is bound in `vars` and every intermediate value
    /// fits in an `isize`.
    spec fn evaluable(&self, vars: Bindings) -> bool;

    /// The value of the expression under `vars`.
    spec fn value(&self, vars: Bindings) -> int;

    /// The expression written out.
    spec fn text(&self) -> Seq<char>;

    /// The value of the expression in `context`.
    fn interpret(&self, context: &Context) -> (r: isize)
        requires
            context.wf(),
            self.evaluable(context@),
        ensures
            r == self.value(context@),
    ;

    /// The expression written out.
    fn show(&self) -> (r: String)
        ensures
            r@ == self.text(),
    ;
}

/// A variable, known by its name.
#[derive(Clone, Eq, Hash, PartialEq)]
pub struct Var {
    name: String,
}

impl Var {
    /// A variable named `name`.
    pub fn new(name: &str) -> (r: Self)
        ensures
            r.text() == name@,
    {
        Var { name: name.to_owned() }
    }
}

impl Expression for Var {
    open spec fn evaluable(&self, vars: Bindings) -> bool {
        vars.contains_key(self.text())
    }

    open spec fn value(&self, vars: Bindings) -> int {
        vars[self.text()] as int
    }

    closed spec fn text(&self) -> Seq<char> {
        self.name@
    }

    fn interpret(&self, context: &Context) -> (r: isize) {
        context.get(self.name.as_str())
    }

    fn show(&self) -> (r: String) {
        self.name.clone()
    }
}

/// Values bound to variable names; binding a name again replaces its value.
pub struct Context {
    vars: Vec<(String, isize)>,
}

/// The bindings listed as pairs of a name and a value.
pub closed spec fn bindings(vars: Seq<(String, isize)>) -> Bindings {
    Map::new(
        |name: Seq<char>| exists|i: int| 0 <= i < vars.len() && vars[i].0@ == name,
        |name: Seq<char>| vars[choose|i: int| 0 <= i < vars.len() && vars[i].0@ == name].1,
    )
}

/// No name is listed twice.
pub closed spec fn names_distinct(vars: Seq<(String, isize)>) -> bool {
    forall|i: int, j: int| 0 <= i < j < vars.len() ==> vars[i].0@ != vars[j].0@
}

proof fn lemma_lookup(vars: Seq<(String, isize)>, i: int)
    requires
        names_distinct(vars),
        0 <= i < vars.len(),
    ensures
        bindings(vars).contains_key(vars[i].0@),
        bindings(vars)[vars[i].0@] == vars[i].1,
{
    let name = vars[i].0@;
    assert(bindings(vars).contains_key(name));
    let j = choose|j: int| 0 <= j < vars.len() && vars[j].0@ == name;
    if j != i {
        if j < i {
            assert(vars[j].0@ != vars[i].0@);
        } else {
            assert(vars[i].0@ != vars[j].0@);
        }
    }
}

impl View for Context {
    type V = Bindings;

    /// The bindings.
    closed spec fn view(&self) -> Bindings {
        bindings(self.vars@)
    }
}

impl Context {
    /// Each name is bound at most once.
    pub closed spec fn wf(self) -> bool {
        names_distinct(self.vars@)
    }

    /// A context binding no name.
    pub fn new() -> (r: Context)
        ensures
            r.wf(),
            r@ == Bindings::empty(),
    {
        let r = Context { vars: Vec::new() };
        assert(r@ =~= Bindings::empty());
        r
    }

    /// The place of `name` among the bindings, if it is bound.
    fn find(&self, name: &String) -> (r: Option<usize>)
        ensures
            r is None ==> forall|i: int| 0 <= i < self.vars@.len() ==> self.vars@[i].0@ != name@,
            r is Some ==> r.unwrap() < self.vars@.len() && self.vars@[r.unwrap() as int].0@ == name@,
    {
        let mut i: usize = 0;
        while i < self.vars.len()
            invariant
                i <= self.vars@.len(),
                forall|k: int| 0 <= k < i ==> self.vars@[k].0@ != name@,
            decreases self.vars@.len() - i,
        {
            if self.vars[i].0 == *name {
                return Some(i);
            }
            i = i + 1;
        }
        None
    }

    /// Binds `name` to `value`, replacing an earlier binding of the same name.
    pub fn add(&mut self, name: Var, value: isize)
        requires
            old(self).wf(),
        ensures
            final(self).wf(),
            final(self)@ == old(self)@.insert(name.text(), value),
    {
        let key = name.name;
        let ghost k = key@;
        let ghost before = self.vars@;
        let found = self.find(&key);
        match found {
            Some(i) => {
                self.vars[i] = (key, value);
            },
            None => {
                self.vars.push((key, value));
            },
        }
        let ghost after = self.vars@;
        let ghost at: int = match found {
            Some(i) => i as int,
            None => before.len() as int,
        };
        assert(after.len() == before.len() || after.len() == before.len() + 1);
        assert(after[at].0@ == k && after[at].1 == value);
        assert(forall|j: int| 0 <= j < after.len() && j != at ==> after[j] == before[j]);
        assert(forall|j: int| 0 <= j < before.len() && j != at ==> after[j] == before[j]);
        assert(names_distinct(after));
        assert forall|n: Seq<char>|
            #![trigger bindings(after).contains_key(n)]
            bindings(after).contains_key(n) == bindings(before).insert(k, value).contains_key(n)
                && (bindings(after).contains_key(n) ==> bindings(after)[n] == bindings(
                before,
            ).insert(k, value)[n]) by {
            if n == k {
                lemma_lookup(after, at);
            } else {
                if bindings(after).contains_key(n) {
                    let j = choose|j: int| 0 <= j < after.len() && after[j].0@ == n;
                    lemma_lookup(after, j);
                    lemma_lookup(before, j);
                }
                if bindings(before).contains_key(n) {
                    let j = choose|j: int| 0 <= j < before.len() && before[j].0@ == n;
                    lemma_lookup(before, j);
                    assert(after[j] == before[j]);
                    lemma_lookup(after, j);
                }
            }
        }
        assert(self@ =~= old(self)@.insert(k, value));
    }

    /// The value bound to `name`.
    pub fn get(&self, name: &str) -> (r: isize)
        requires
            self.wf(),
            self@.contains_key(name@),
        ensures
            r == self@[name@],
    {
        let key = name.to_owned();
        match self.find(&key) {
            Some(i) => {
                proof {
                    lemma_lookup(self.vars@, i as int);
                }
                self.vars[i].1
            },
            None => 0,
        }
    }
}

/// The difference of two expressions.
pub struct Minus {
    left: Box<dyn Expression>,
    right: Box<dyn Expression>,
}

impl Minus {
    /// The expression `left - right`.
    pub fn new(left: Box<dyn Expression>, right: Box<dyn Expression>) -> (r: Self) {
        Minus { left, right }
    }
}

impl Expression for Minus {
    closed spec fn evaluable(&self, vars: Bindings) -> bool {
        &&& self.left.evaluable(vars)
        &&& self.right.evaluable(vars)
        &&& isize::MIN <= self.left.value(vars) - self.right.value(vars) <= isize::MAX
    }

    closed spec fn value(&self, vars: Bindings) -> int {
        self.left.value(vars) - self.right.value(vars)
    }

    closed spec fn text(&self) -> Seq<char> {
        self.left.text() + " - "@ + self.right.text()
    }

    fn interpret(&self, context: &Context) -> (r: isize) {
        let a = self.left.interpret(context);
        let b = self.right.interpret(context);
        a - b
    }

    fn show(&self) -> (r: String) {
        let left = self.left.show();
        let right = self.right.show();
        left.concat(" - ").concat(right.as_str())
    }
}

} // verus!
