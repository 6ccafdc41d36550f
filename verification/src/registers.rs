//! Classical output registers: for each register name, the values that the
//! shots of a circuit wrote, in the order of the shots.

use vstd::prelude::*;
use vstd::pervasive::VecAdditionalExecFns;
use vstd::string::StringExecFns;

verus! {

/// The values of the shots of one register, as sequences.
pub open spec fn shots_view<T>(shots: Seq<Vec<T>>) -> Seq<Seq<T>> {
    Seq::new(shots.len(), |i: int| shots[i]@)
}

/// What two register maps hold together: the registers of both, and under a
/// name that both have, the shots of the first followed by those of the
/// second.
pub open spec fn merged<T>(
    first: Map<Seq<char>, Seq<Seq<T>>>,
    second: Map<Seq<char>, Seq<Seq<T>>>,
) -> Map<Seq<char>, Seq<Seq<T>>> {
    Map::new(
        |name: Seq<char>| first.contains_key(name) || second.contains_key(name),
        |name: Seq<char>|
            if first.contains_key(name) && second.contains_key(name) {
                first[name] + second[name]
            } else if second.contains_key(name) {
                second[name]
            } else {
                first[name]
            },
    )
}

/// Registers by name. No name occurs twice.
///
/// Its value is a map from each name to the shots recorded under it.
#[derive(Debug)]
pub struct RegisterMap<T> {
    names: Vec<String>,
    registers: Vec<Vec<Vec<T>>>,
}

impl<T> View for RegisterMap<T> {
    type V = Map<Seq<char>, Seq<Seq<T>>>;

    closed spec fn view(&self) -> Map<Seq<char>, Seq<Seq<T>>> {
        Map::new(
            |name: Seq<char>| self.has(name),
            |name: Seq<char>| shots_view(self.registers@[self.index_of(name)]@),
        )
    }
}

impl<T> RegisterMap<T> {
    #[verifier::type_invariant]
    spec fn well_formed(&self) -> bool {
        &&& self.names@.len() == self.registers@.len()
        &&& forall|i: int, j: int|
            0 <= i < j < self.names@.len() ==> self.names@[i]@ != self.names@[j]@
    }

    /// Whether a register of this name is held.
    spec fn has(&self, name: Seq<char>) -> bool {
        exists|i: int| 0 <= i < self.names@.len() && self.names@[i]@ == name
    }

    /// The position at which the register of this name is held.
    spec fn index_of(&self, name: Seq<char>) -> int {
        choose|i: int| 0 <= i < self.names@.len() && self.names@[i]@ == name
    }

    /// Creates an empty map.
    pub fn new() -> (map: Self)
        ensures
            map@ == Map::<Seq<char>, Seq<Seq<T>>>::empty(),
    {
        let map = RegisterMap { names: Vec::new(), registers: Vec::new() };
        map
    }

    /// Returns the number of registers.
    pub fn len(&self) -> (n: usize)
        ensures
            self@.dom().finite(),
            n == self@.len(),
    {
        proof {
            use_type_invariant(self);
            self.lemma_domain();
        }
        self.names.len()
    }

    /// The names are those at the positions of the list, each once.
    proof fn lemma_domain(&self)
        requires
            self.well_formed(),
        ensures
            self@.dom().finite(),
            self@.dom().len() == self.names@.len(),
    {
        Self::lemma_count(self.names@, self.names@.len() as int);
        assert(self@.dom() =~= Self::names_below(self.names@, self.names@.len() as int));
    }

    /// The names at the positions below `n`.
    spec fn names_below(names: Seq<String>, n: int) -> Set<Seq<char>> {
        Set::new(|name: Seq<char>| exists|i: int| 0 <= i < n && names[i]@ == name)
    }

    proof fn lemma_count(names: Seq<String>, n: int)
        requires
            0 <= n <= names.len(),
            forall|i: int, j: int| 0 <= i < j < names.len() ==> names[i]@ != names[j]@,
        ensures
            Self::names_below(names, n).finite(),
            Self::names_below(names, n).len() == n,
        decreases n,
    {
        if n == 0 {
            assert(Self::names_below(names, 0) =~= Set::<Seq<char>>::empty());
        } else {
            Self::lemma_count(names, n - 1);
            let fewer = Self::names_below(names, n - 1);
            assert(Self::names_below(names, n) =~= fewer.insert(names[n - 1]@));
        }
    }

    /// A name is found at the one position that holds it.
    proof fn lemma_index_of(&self, i: int)
        requires
            self.well_formed(),
            0 <= i < self.names@.len(),
        ensures
            self.has(self.names@[i]@),
            self.index_of(self.names@[i]@) == i,
    {
    }

    /// Finds the position of the register of the given name.
    fn position(&self, name: &String) -> (found: Option<usize>)
        ensures
            match found {
                Some(i) => i < self.names@.len() && self.names@[i as int]@ == name@ && self.has(name@)
                    && self.index_of(name@) == i,
                None => !self.has(name@),
            },
    {
        proof {
            use_type_invariant(self);
        }
        let mut i: usize = 0;
        while i < self.names.len()
            invariant
                0 <= i <= self.names@.len(),
                self.well_formed(),
                forall|j: int| 0 <= j < i ==> self.names@[j]@ != name@,
            decreases self.names@.len() - i,
        {
            if self.names[i] == *name {
                proof {
                    self.lemma_index_of(i as int);
                }
                return Some(i);
            }
            i += 1;
        }
        None
    }

    /// Tells whether the map holds a register of the given name.
    pub fn contains_key(&self, name: &str) -> (found: bool)
        ensures
            found == self@.contains_key(name@),
    {
        let key = String::from_str(name);
        self.position(&key).is_some()
    }

    /// Returns the shots of the register of the given name, if there is one.
    pub fn get(&self, name: &str) -> (register: Option<&Vec<Vec<T>>>)
        ensures
            match register {
                Some(shots) => self@.contains_key(name@) && shots_view(shots@) == self@[name@],
                None => !self@.contains_key(name@),
            },
    {
        proof {
            use_type_invariant(self);
        }
        let key = String::from_str(name);
        match self.position(&key) {
            Some(i) => Some(&self.registers[i]),
            None => None,
        }
    }

    /// Returns the names of the registers, each once, in no particular order.
    pub fn keys(&self) -> (names: Vec<String>)
        ensures
            names@.len() == self@.len(),
            self@.dom().finite(),
            forall|i: int| 0 <= i < names@.len() ==> self@.contains_key(#[trigger] names@[i]@),
            forall|name: Seq<char>|
                self@.contains_key(name) ==> exists|i: int|
                    0 <= i < names@.len() && names@[i]@ == name,
            forall|i: int, j: int| 0 <= i < j < names@.len() ==> names@[i]@ != names@[j]@,
    {
        proof {
            use_type_invariant(self);
            self.lemma_domain();
        }
        let mut names: Vec<String> = Vec::new();
        let mut i: usize = 0;
        while i < self.names.len()
            invariant
                0 <= i <= self.names@.len(),
                names@.len() == i,
                forall|j: int| 0 <= j < i ==> names@[j]@ == self.names@[j]@,
            decreases self.names@.len() - i,
        {
            names.push(self.names[i].clone());
            i += 1;
        }
        proof {
            assert forall|name: Seq<char>| self@.contains_key(name) implies exists|i: int|
                0 <= i < names@.len() && names@[i]@ == name by {
                let i = self.index_of(name);
                assert(names@[i]@ == name);
            }
            assert forall|i: int| 0 <= i < names@.len() implies self@.contains_key(
                #[trigger] names@[i]@,
            ) by {
                self.lemma_index_of(i);
            }
        }
        names
    }

    /// Replacing the register at one position replaces it under its name.
    proof fn lemma_replaced(before: Self, after: Self, i: int, register: Vec<Vec<T>>)
        requires
            before.well_formed(),
            0 <= i < before.names@.len(),
            after.names@ == before.names@,
            after.registers@ == before.registers@.update(i, register),
        ensures
            after.well_formed(),
            after@ == before@.insert(before.names@[i]@, shots_view(register@)),
    {
        let name = before.names@[i]@;
        before.lemma_index_of(i);
        after.lemma_index_of(i);
        assert forall|key: Seq<char>| after.has(key) implies #[trigger] after@[key] == before@.insert(
            name,
            shots_view(register@),
        )[key] by {
            let k = after.index_of(key);
            after.lemma_index_of(k);
            before.lemma_index_of(k);
        }
    }

    /// Adding a register under a new name at the end adds it to the map.
    proof fn lemma_added(before: Self, after: Self, name: String, register: Vec<Vec<T>>)
        requires
            before.well_formed(),
            !before.has(name@),
            after.names@ == before.names@.push(name),
            after.registers@ == before.registers@.push(register),
        ensures
            after.well_formed(),
            after@ == before@.insert(name@, shots_view(register@)),
    {
        let last = before.names@.len() as int;
        after.lemma_index_of(last);
        assert forall|key: Seq<char>| after.has(key) <==> (before.has(key) || key == name@) by {
            if before.has(key) {
                assert(after.names@[before.index_of(key)]@ == key);
            }
        }
        assert forall|key: Seq<char>| after.has(key) implies #[trigger] after@[key] == before@.insert(
            name@,
            shots_view(register@),
        )[key] by {
            let k = after.index_of(key);
            after.lemma_index_of(k);
            if k < last {
                before.lemma_index_of(k);
            }
        }
    }

    /// Moves the names and registers out of the map, which it leaves empty.
    fn take_parts(&mut self) -> (parts: (Vec<String>, Vec<Vec<Vec<T>>>))
        ensures
            parts.0 == old(self).names,
            parts.1 == old(self).registers,
            final(self).names@.len() == 0,
            final(self).registers@.len() == 0,
    {
        let mut taken = RegisterMap { names: Vec::new(), registers: Vec::new() };
        core::mem::swap(self, &mut taken);
        let RegisterMap { names, registers } = taken;
        (names, registers)
    }

    /// Puts a register under the given name, in place of the one that the map
    /// held under that name, if it held one.
    pub fn insert(&mut self, name: String, register: Vec<Vec<T>>)
        ensures
            final(self)@ == old(self)@.insert(name@, shots_view(register@)),
    {
        proof {
            use_type_invariant(&*self);
        }
        let found = self.position(&name);
        let (mut names, mut registers) = self.take_parts();
        match found {
            Some(i) => {
                registers.set(i, register);
                proof {
                    Self::lemma_replaced(*old(self), RegisterMap { names, registers }, i as int, register);
                }
            },
            None => {
                names.push(name);
                registers.push(register);
                proof {
                    Self::lemma_added(*old(self), RegisterMap { names, registers }, name, register);
                }
            },
        }
        *self = RegisterMap { names, registers };
    }

    /// Appends one shot to the register of the given name. A map without
    /// such a register stays as it is.
    ///
    /// Returns whether the shot was stored.
    pub fn push(&mut self, name: &str, shot: Vec<T>) -> (stored: bool)
        ensures
            stored == old(self)@.contains_key(name@),
            stored ==> final(self)@ == old(self)@.insert(name@, old(self)@[name@].push(shot@)),
            !stored ==> final(self)@ == old(self)@,
    {
        proof {
            use_type_invariant(&*self);
        }
        let key = String::from_str(name);
        match self.position(&key) {
            Some(i) => {
                let (names, mut registers) = self.take_parts();
                let mut register: Vec<Vec<T>> = Vec::new();
                registers.set_and_swap(i, &mut register);
                let ghost held = register@;
                register.push(shot);
                proof {
                    assert(shots_view(register@) =~= shots_view(held).push(shot@));
                }
                registers.set(i, register);
                proof {
                    assert(registers@ =~= old(self).registers@.update(i as int, register));
                    Self::lemma_replaced(*old(self), RegisterMap { names, registers }, i as int, register);
                }
                *self = RegisterMap { names, registers };
                true
            },
            None => false,
        }
    }

    /// Adds the shots of a register under the given name: after those that
    /// the map holds under that name, or as a new register.
    pub fn extend(&mut self, name: String, shots: Vec<Vec<T>>)
        ensures
            final(self)@ == old(self)@.insert(
                name@,
                if old(self)@.contains_key(name@) {
                    old(self)@[name@] + shots_view(shots@)
                } else {
                    shots_view(shots@)
                },
            ),
    {
        proof {
            use_type_invariant(&*self);
        }
        let found = self.position(&name);
        let (mut names, mut registers) = self.take_parts();
        match found {
            Some(i) => {
                let mut register: Vec<Vec<T>> = Vec::new();
                registers.set_and_swap(i, &mut register);
                let ghost held = register@;
                let ghost added = shots@;
                let mut shots = shots;
                register.append(&mut shots);
                proof {
                    assert(shots_view(register@) =~= shots_view(held) + shots_view(added));
                }
                registers.set(i, register);
                proof {
                    assert(registers@ =~= old(self).registers@.update(i as int, register));
                    Self::lemma_replaced(*old(self), RegisterMap { names, registers }, i as int, register);
                }
            },
            None => {
                names.push(name);
                registers.push(shots);
                proof {
                    Self::lemma_added(*old(self), RegisterMap { names, registers }, name, shots);
                }
            },
        }
        *self = RegisterMap { names, registers };
    }

    /// Takes over the registers of another map: those under new names as
    /// they are, and the shots of the others after the shots held under the
    /// same name.
    pub fn merge(&mut self, other: RegisterMap<T>)
        ensures
            final(self)@ == merged(old(self)@, other@),
    {
        proof {
            use_type_invariant(&*self);
            use_type_invariant(&other);
        }
        let RegisterMap { names: mut names, registers: mut registers } = other;
        let ghost total = names@.len() as int;
        while names.len() > 0
            invariant
                other.well_formed(),
                total == other.names@.len(),
                names@.len() == registers@.len(),
                names@.len() <= total,
                names@ == other.names@.take(names@.len() as int),
                registers@ == other.registers@.take(names@.len() as int),
                self@ == merged(
                    old(self)@,
                    other@.restrict(Self::names_from(other.names@, names@.len() as int)),
                ),
            decreases names@.len(),
        {
            let ghost n = names@.len() as int;
            let name = names.pop().unwrap();
            let register = registers.pop().unwrap();
            self.extend(name, register);
            proof {
                other.lemma_index_of(n - 1);
                let done = other@.restrict(Self::names_from(other.names@, n));
                let more = other@.restrict(Self::names_from(other.names@, n - 1));
                assert(!done.contains_key(name@)) by {
                    if done.contains_key(name@) {
                        let j = choose|j: int| n <= j < total && other.names@[j]@ == name@;
                        assert(other.names@[n - 1]@ != other.names@[j]@);
                    }
                }
                assert(more.contains_key(name@));
                assert(more[name@] == shots_view(register@));
                assert forall|key: Seq<char>| more.contains_key(key) <==> (done.contains_key(key) || key
                    == name@) by {
                    if more.contains_key(key) && key != name@ {
                        let j = choose|j: int| n - 1 <= j < total && other.names@[j]@ == key;
                        assert(n <= j);
                    }
                }
                assert(self@ =~= merged(old(self)@, more));
                assert(names@ =~= other.names@.take(n - 1));
                assert(registers@ =~= other.registers@.take(n - 1));
            }
        }
        proof {
            assert(other@.restrict(Self::names_from(other.names@, 0)) =~= other@) by {
                assert forall|key: Seq<char>| other@.contains_key(key) implies Self::names_from(
                    other.names@,
                    0,
                ).contains(key) by {
                    let j = other.index_of(key);
                    assert(other.names@[j]@ == key);
                }
            }
        }
    }

    /// The names at the positions from `n` on.
    spec fn names_from(names: Seq<String>, n: int) -> Set<Seq<char>> {
        Set::new(|name: Seq<char>| exists|i: int| n <= i < names.len() && names[i]@ == name)
    }
}

/// The output registers of a circuit: registers of bits, of floats and of
/// complex numbers.
///
/// A float is held by the bit pattern of its IEEE 754 double-precision
/// encoding, a complex number by those of its real and imaginary parts.
#[derive(Debug)]
pub struct Registers {
    /// The registers of bits.
    pub bit: RegisterMap<bool>,
    /// The registers of floats.
    pub float: RegisterMap<u64>,
    /// The registers of complex numbers.
    pub complex: RegisterMap<(u64, u64)>,
}

/// Mathematical value of [`Registers`].
pub struct RegistersView {
    pub bit: Map<Seq<char>, Seq<Seq<bool>>>,
    pub float: Map<Seq<char>, Seq<Seq<u64>>>,
    pub complex: Map<Seq<char>, Seq<Seq<(u64, u64)>>>,
}

impl View for Registers {
    type V = RegistersView;

    open spec fn view(&self) -> RegistersView {
        RegistersView { bit: self.bit@, float: self.float@, complex: self.complex@ }
    }
}

impl RegistersView {
    /// No registers at all.
    pub open spec fn empty() -> RegistersView {
        RegistersView { bit: Map::empty(), float: Map::empty(), complex: Map::empty() }
    }

    /// The registers of `self` and of `later` together, kind by kind.
    pub open spec fn merged_with(self, later: RegistersView) -> RegistersView {
        RegistersView {
            bit: merged(self.bit, later.bit),
            float: merged(self.float, later.float),
            complex: merged(self.complex, later.complex),
        }
    }
}

/// The registers of several runs together: under each name the shots of
/// all runs that have a register of that name, in the order of the runs.
pub open spec fn merged_all(runs: Seq<RegistersView>) -> RegistersView
    decreases runs.len(),
{
    if runs.len() == 0 {
        RegistersView::empty()
    } else {
        merged_all(runs.drop_last()).merged_with(runs.last())
    }
}

/// The values of the registers of several runs, in order.
pub open spec fn runs_view(runs: Seq<Registers>) -> Seq<RegistersView> {
    Seq::new(runs.len(), |i: int| runs[i]@)
}

impl Registers {
    /// Creates output registers that hold no register.
    pub fn new() -> (registers: Self)
        ensures
            registers@ == RegistersView::empty(),
    {
        Registers { bit: RegisterMap::new(), float: RegisterMap::new(), complex: RegisterMap::new() }
    }

    /// Takes over the registers of a later run: a register under a new name
    /// as it is, and the shots of any other after the shots held under its
    /// name.
    pub fn merge(&mut self, later: Registers)
        ensures
            final(self)@ == old(self)@.merged_with(later@),
    {
        let Registers { bit, float, complex } = later;
        self.bit.merge(bit);
        self.float.merge(float);
        self.complex.merge(complex);
    }
}

/// Merges the output registers of the circuits of one measurement, run one
/// after the other, into the registers of the measurement.
pub fn merge_results(runs: Vec<Registers>) -> (total: Registers)
    ensures
        total@ == merged_all(runs_view(runs@)),
{
    let mut total = Registers::new();
    let mut rest = runs;
    let mut i: usize = 0;
    while i < rest.len()
        invariant
            0 <= i <= runs@.len(),
            rest@.len() == runs@.len(),
            forall|k: int| i <= k < runs@.len() ==> rest@[k] == runs@[k],
            total@ == merged_all(runs_view(runs@).take(i as int)),
        decreases runs@.len() - i,
    {
        let mut run = Registers::new();
        rest.set_and_swap(i, &mut run);
        total.merge(run);
        proof {
            let next = runs_view(runs@).take(i + 1);
            assert(next.drop_last() =~= runs_view(runs@).take(i as int));
        }
        i += 1;
    }
    proof {
        assert(runs_view(runs@).take(runs@.len() as int) =~= runs_view(runs@));
    }
    total
}

} // verus!
