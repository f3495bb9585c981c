use vstd::prelude::*;

use crate::locator::opt_view;

verus! {

/// A named formula that defines a computed column.
#[derive(Debug)]
pub struct Expression {
    pub name: String,
    pub text: String,
}

impl Expression {
    pub open spec fn pair(self) -> (Seq<char>, Seq<char>) {
        (self.name@, self.text@)
    }

    /// A copy with the same name and text.
    pub fn duplicate(&self) -> (r: Expression)
        ensures
            r.pair() == self.pair(),
    {
        Expression { name: self.name.clone(), text: self.text.clone() }
    }
}

/// A change that the panel asks the session to apply to its expressions.
#[derive(Debug)]
pub enum ColumnSettingsUpdate {
    /// The expression registered as `old_name` becomes `expr`.
    ReplaceExpression { old_name: String, expr: Expression },
    /// A new expression is registered.
    InsertExpression(Expression),
    /// The named expression is removed.
    RemoveExpression(String),
    /// The column `old_name` is registered as `new_name` from now on.
    RenameColumn { old_name: String, new_name: String },
}

/// Mathematical form of a [`ColumnSettingsUpdate`].
pub enum UpdateView {
    Replace(Seq<char>, Seq<char>, Seq<char>),
    Insert(Seq<char>, Seq<char>),
    Remove(Seq<char>),
    Rename(Seq<char>, Seq<char>),
}

impl View for ColumnSettingsUpdate {
    type V = UpdateView;

    open spec fn view(&self) -> UpdateView {
        match self {
            ColumnSettingsUpdate::ReplaceExpression { old_name, expr } => UpdateView::Replace(
                old_name@,
                expr.name@,
                expr.text@,
            ),
            ColumnSettingsUpdate::InsertExpression(e) => UpdateView::Insert(e.name@, e.text@),
            ColumnSettingsUpdate::RemoveExpression(n) => UpdateView::Remove(n@),
            ColumnSettingsUpdate::RenameColumn { old_name, new_name } => UpdateView::Rename(
                old_name@,
                new_name@,
            ),
        }
    }
}

/// Why the session refuses an update; a refused update changes nothing.
#[derive(Debug, Clone, Copy, PartialEq, Eq, Structural)]
pub enum UpdateError {
    /// The update names an expression that is not registered.
    UnknownName,
    /// The update would register a second expression under a name in use.
    DuplicateName,
}

/// Whether `u` can be applied to the expressions `reg`.
pub open spec fn update_error(reg: Map<Seq<char>, Seq<char>>, u: UpdateView) -> Option<UpdateError> {
    match u {
        UpdateView::Replace(old, new, _) => if !reg.contains_key(old) {
            Some(UpdateError::UnknownName)
        } else if new != old && reg.contains_key(new) {
            Some(UpdateError::DuplicateName)
        } else {
            None
        },
        UpdateView::Insert(name, _) => if reg.contains_key(name) {
            Some(UpdateError::DuplicateName)
        } else {
            None
        },
        UpdateView::Remove(name) => if !reg.contains_key(name) {
            Some(UpdateError::UnknownName)
        } else {
            None
        },
        UpdateView::Rename(old, new) => if !reg.contains_key(old) {
            Some(UpdateError::UnknownName)
        } else if new != old && reg.contains_key(new) {
            Some(UpdateError::DuplicateName)
        } else {
            None
        },
    }
}

/// The expressions after `u` is applied to `reg`.
pub open spec fn applied(reg: Map<Seq<char>, Seq<char>>, u: UpdateView) -> Map<Seq<char>, Seq<char>> {
    match u {
        UpdateView::Replace(old, new, text) => reg.remove(old).insert(new, text),
        UpdateView::Insert(name, text) => reg.insert(name, text),
        UpdateView::Remove(name) => reg.remove(name),
        UpdateView::Rename(old, new) => reg.remove(old).insert(new, reg[old]),
    }
}

/// What `reg` holds under `name`.
pub open spec fn lookup(reg: Map<Seq<char>, Seq<char>>, name: Seq<char>) -> Option<Seq<char>> {
    if reg.contains_key(name) {
        Some(reg[name])
    } else {
        None
    }
}

/// Whether no two entries of `s` share a name.
pub open spec fn unique_names(s: Seq<(Seq<char>, Seq<char>)>) -> bool {
    forall|i: int, j: int| 0 <= i < s.len() && 0 <= j < s.len() && i != j ==> s[i].0 != s[j].0
}

pub open spec fn has_name(s: Seq<(Seq<char>, Seq<char>)>, k: Seq<char>) -> bool {
    exists|i: int| 0 <= i < s.len() && s[i].0 == k
}

/// The entries as a map from name to text.
pub open spec fn as_map(s: Seq<(Seq<char>, Seq<char>)>) -> Map<Seq<char>, Seq<char>> {
    Map::new(
        |k: Seq<char>| has_name(s, k),
        |k: Seq<char>| s[choose|i: int| 0 <= i < s.len() && s[i].0 == k].1,
    )
}

proof fn lemma_as_map_at(s: Seq<(Seq<char>, Seq<char>)>, i: int)
    requires
        unique_names(s),
        0 <= i < s.len(),
    ensures
        as_map(s).contains_key(s[i].0),
        as_map(s)[s[i].0] == s[i].1,
{
    assert(has_name(s, s[i].0));
}

proof fn lemma_push(s: Seq<(Seq<char>, Seq<char>)>, p: (Seq<char>, Seq<char>))
    requires
        unique_names(s),
        !has_name(s, p.0),
    ensures
        unique_names(s.push(p)),
        as_map(s.push(p)) == as_map(s).insert(p.0, p.1),
{
    let t = s.push(p);
    assert forall|i: int| 0 <= i < s.len() implies #[trigger] t[i] == s[i] by {}
    assert(t[s.len() as int] == p);
    assert(unique_names(t));
    let m = as_map(s).insert(p.0, p.1);
    assert forall|i: int| 0 <= i < t.len() implies m.contains_key(#[trigger] t[i].0) && m[t[i].0]
        == t[i].1 by {
        if i < s.len() {
            lemma_as_map_at(s, i);
        }
    }
    assert forall|k: Seq<char>| m.contains_key(k) implies has_name(t, k) by {
        if k == p.0 {
            assert(t[s.len() as int].0 == k);
        } else {
            let i = choose|i: int| 0 <= i < s.len() && s[i].0 == k;
            assert(t[i].0 == k);
        }
    }
    lemma_as_map_eq(t, m);
}

proof fn lemma_remove(s: Seq<(Seq<char>, Seq<char>)>, i: int)
    requires
        unique_names(s),
        0 <= i < s.len(),
    ensures
        unique_names(s.remove(i)),
        as_map(s.remove(i)) == as_map(s).remove(s[i].0),
        !has_name(s.remove(i), s[i].0),
{
    let t = s.remove(i);
    assert forall|j: int| 0 <= j < t.len() implies #[trigger] t[j] == (if j < i {
        s[j]
    } else {
        s[j + 1]
    }) by {}
    assert(unique_names(t));
    let m = as_map(s).remove(s[i].0);
    assert forall|j: int| 0 <= j < t.len() implies m.contains_key(#[trigger] t[j].0) && m[t[j].0]
        == t[j].1 by {
        if j < i {
            lemma_as_map_at(s, j);
        } else {
            lemma_as_map_at(s, j + 1);
        }
    }
    assert forall|k: Seq<char>| m.contains_key(k) implies has_name(t, k) by {
        let j = choose|j: int| 0 <= j < s.len() && s[j].0 == k;
        if j < i {
            assert(t[j].0 == k);
        } else {
            assert(t[j - 1].0 == k);
        }
    }
    lemma_as_map_eq(t, m);
}

proof fn lemma_as_map_eq(
    s: Seq<(Seq<char>, Seq<char>)>,
    m: Map<Seq<char>, Seq<char>>,
)
    requires
        unique_names(s),
        forall|i: int| 0 <= i < s.len() ==> m.contains_key(#[trigger] s[i].0) && m[s[i].0] == s[i].1,
        forall|k: Seq<char>| m.contains_key(k) ==> has_name(s, k),
    ensures
        as_map(s) == m,
{
    assert forall|k: Seq<char>| #[trigger] as_map(s).contains_key(k) <==> m.contains_key(k) by {
        if has_name(s, k) {
            let i = choose|i: int| 0 <= i < s.len() && s[i].0 == k;
            assert(m.contains_key(s[i].0));
        }
    }
    assert forall|k: Seq<char>| #[trigger] as_map(s).contains_key(k) implies as_map(s)[k] == m[k] by {
        let i = choose|i: int| 0 <= i < s.len() && s[i].0 == k;
        lemma_as_map_at(s, i);
    }
    assert(as_map(s) =~= m);
}

/// The expressions that the session holds, by name.
pub struct ExpressionRegistry {
    entries: Vec<Expression>,
}

impl View for ExpressionRegistry {
    type V = Map<Seq<char>, Seq<char>>;

    /// The registered expressions, from name to text.
    closed spec fn view(&self) -> Map<Seq<char>, Seq<char>> {
        as_map(self.pairs())
    }
}

impl ExpressionRegistry {
    pub closed spec fn pairs(&self) -> Seq<(Seq<char>, Seq<char>)> {
        self.entries@.map_values(|e: Expression| e.pair())
    }

    /// No two expressions share a name.
    pub closed spec fn wf(&self) -> bool {
        unique_names(self.pairs())
    }


    /// A registry without expressions.
    pub fn new() -> (r: ExpressionRegistry)
        ensures
            r.wf(),
            r@ == Map::<Seq<char>, Seq<char>>::empty(),
    {
        let r = ExpressionRegistry { entries: Vec::new() };
        assert(r@ =~= Map::<Seq<char>, Seq<char>>::empty());
        r
    }

    /// Where `name` is held, if it is.
    fn find(&self, name: &String) -> (r: Option<usize>)
        requires
            self.wf(),
        ensures
            r matches Some(i) ==> i < self.entries@.len() && self.pairs()[i as int].0 == name@,
            r is None ==> !self@.contains_key(name@),
    {
        let mut i: usize = 0;
        while i < self.entries.len()
            invariant
                0 <= i <= self.entries@.len(),
                forall|j: int| 0 <= j < i ==> self.pairs()[j].0 != name@,
            decreases self.entries@.len() - i,
        {
            if self.entries[i].name.eq(name) {
                return Some(i);
            }
            i = i + 1;
        }
        None
    }

    /// The text of the expression registered as `name`.
    pub fn get(&self, name: &String) -> (r: Option<String>)
        requires
            self.wf(),
        ensures
            opt_view(r) == lookup(self@, name@),
    {
        match self.find(name) {
            Some(i) => {
                proof {
                    lemma_as_map_at(self.pairs(), i as int);
                }
                Some(self.entries[i].text.clone())
            },
            None => None,
        }
    }

    /// Registers `e`, which must be under a name not yet in use.
    fn push_entry(&mut self, e: Expression)
        requires
            old(self).wf(),
            !old(self)@.contains_key(e.name@),
        ensures
            final(self).wf(),
            final(self)@ == old(self)@.insert(e.name@, e.text@),
    {
        let ghost s = self.pairs();
        proof {
            if has_name(s, e.name@) {
                let i = choose|i: int| 0 <= i < s.len() && s[i].0 == e.name@;
                lemma_as_map_at(s, i);
            }
            lemma_push(s, e.pair());
        }
        self.entries.push(e);
        assert(self.pairs() =~= s.push(e.pair()));
    }

    /// Drops the entry at `i`, handing back its text.
    fn remove_entry(&mut self, i: usize) -> (r: String)
        requires
            old(self).wf(),
            i < old(self).entries@.len(),
        ensures
            final(self).wf(),
            old(self)@.contains_key(old(self).pairs()[i as int].0),
            r@ == old(self)@[old(self).pairs()[i as int].0],
            final(self)@ == old(self)@.remove(old(self).pairs()[i as int].0),
            !has_name(final(self).pairs(), old(self).pairs()[i as int].0),
    {
        let ghost s = self.pairs();
        proof {
            lemma_as_map_at(s, i as int);
            lemma_remove(s, i as int);
        }
        let e = self.entries.remove(i);
        assert(self.pairs() =~= s.remove(i as int));
        e.text
    }

    /// Applies `u` as one transaction: either all of it, or, with an error, none.
    pub fn apply(&mut self, u: &ColumnSettingsUpdate) -> (r: Result<(), UpdateError>)
        requires
            old(self).wf(),
        ensures
            final(self).wf(),
            match r {
                Ok(()) => update_error(old(self)@, u@) is None && final(self)@ == applied(
                    old(self)@,
                    u@,
                ),
                Err(e) => update_error(old(self)@, u@) == Some(e) && final(self)@ == old(self)@,
            },
    {
        match u {
            ColumnSettingsUpdate::InsertExpression(e) => {
                if self.find(&e.name).is_some() {
                    return Err(UpdateError::DuplicateName);
                }
                self.push_entry(e.duplicate());
                Ok(())
            },
            ColumnSettingsUpdate::RemoveExpression(name) => match self.find(name) {
                None => Err(UpdateError::UnknownName),
                Some(i) => {
                    self.remove_entry(i);
                    Ok(())
                },
            },
            ColumnSettingsUpdate::ReplaceExpression { old_name, expr } => {
                let i = match self.find(old_name) {
                    None => {
                        return Err(UpdateError::UnknownName);
                    },
                    Some(i) => i,
                };
                if !expr.name.eq(old_name) && self.find(&expr.name).is_some() {
                    return Err(UpdateError::DuplicateName);
                }
                self.remove_entry(i);
                self.push_entry(expr.duplicate());
                Ok(())
            },
            ColumnSettingsUpdate::RenameColumn { old_name, new_name } => {
                let i = match self.find(old_name) {
                    None => {
                        return Err(UpdateError::UnknownName);
                    },
                    Some(i) => i,
                };
                if !new_name.eq(old_name) && self.find(new_name).is_some() {
                    return Err(UpdateError::DuplicateName);
                }
                let text = self.remove_entry(i);
                self.push_entry(Expression { name: new_name.clone(), text });
                Ok(())
            },
        }
    }
}

} // verus!
