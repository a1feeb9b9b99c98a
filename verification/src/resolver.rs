//! Name resolution and type checking over a stack of lexical scopes.

pub mod diagnostics;
pub mod expressions;
pub mod laws;
pub mod rules;
pub mod soundness;
pub mod statements;

use crate::error::PulseError;
use crate::resolver::diagnostics::duplicate_declaration;
use crate::resolver::rules::{declare, lookup};
use vstd::hash_map::StringHashMap;
use vstd::prelude::*;

verus! {

/// The static types of the language.
#[derive(Debug, Clone, Copy, PartialEq, Eq, Structural)]
pub enum Type {
    Int,
    Float,
    Bool,
    String,
    Void,
}

impl Type {
    /// The name under which a type appears in diagnostics.
    pub open spec fn spec_name(self) -> Seq<char> {
        match self {
            Type::Int => "Int"@,
            Type::Float => "Float"@,
            Type::Bool => "Bool"@,
            Type::String => "String"@,
            Type::Void => "Void"@,
        }
    }

    pub fn name(&self) -> (text: &'static str)
        ensures
            text@ == self.spec_name(),
    {
        match self {
            Type::Int => "Int",
            Type::Float => "Float",
            Type::Bool => "Bool",
            Type::String => "String",
            Type::Void => "Void",
        }
    }
}

/// One binding in one scope. A function's symbol holds its return type.
#[derive(Debug)]
pub struct Symbol {
    name: String,
    symbol_type: Type,
    is_mutable: bool,
}

/// The mathematical value of a [`Symbol`].
pub struct SymbolView {
    pub name: Seq<char>,
    pub symbol_type: Type,
    pub is_mutable: bool,
}

impl View for Symbol {
    type V = SymbolView;

    closed spec fn view(&self) -> SymbolView {
        SymbolView {
            name: self.name@,
            symbol_type: self.symbol_type,
            is_mutable: self.is_mutable,
        }
    }
}

impl Symbol {
    pub fn new(name: String, symbol_type: Type, is_mutable: bool) -> (symbol: Self)
        ensures
            symbol@ == (SymbolView { name: name@, symbol_type, is_mutable }),
    {
        Symbol { name, symbol_type, is_mutable }
    }

    pub fn name(&self) -> (name: &String)
        ensures
            name@ == self@.name,
    {
        &self.name
    }

    pub fn symbol_type(&self) -> (symbol_type: Type)
        ensures
            symbol_type == self@.symbol_type,
    {
        self.symbol_type
    }

    pub fn is_mutable(&self) -> (is_mutable: bool)
        ensures
            is_mutable == self@.is_mutable,
    {
        self.is_mutable
    }
}

impl Clone for Symbol {
    fn clone(&self) -> (res: Self)
        ensures
            res@ == self@,
    {
        Symbol {
            name: self.name.clone(),
            symbol_type: self.symbol_type,
            is_mutable: self.is_mutable,
        }
    }
}

/// The bindings of one lexical scope: no name occurs twice.
pub struct Scope {
    symbols: StringHashMap<Symbol>,
}

impl View for Scope {
    type V = Map<Seq<char>, SymbolView>;

    closed spec fn view(&self) -> Map<Seq<char>, SymbolView> {
        self.symbols@.map_values(|symbol: Symbol| symbol@)
    }
}

impl Scope {
    pub fn new() -> (scope: Self)
        ensures
            scope@ == Map::<Seq<char>, SymbolView>::empty(),
    {
        let scope = Scope { symbols: StringHashMap::new() };
        scope
    }

    /// Binds `name` to `symbol`, unless the scope binds the name already.
    pub fn define(&mut self, name: String, symbol: Symbol) -> (res: Result<(), PulseError>)
        ensures
            match res {
                Ok(_) => !old(self)@.contains_key(name@) && final(self)@ == old(self)@.insert(
                    name@,
                    symbol@,
                ),
                Err(error) => old(self)@.contains_key(name@) && final(self)@ == old(self)@
                    && error@ == diagnostics::duplicate_declaration_error(name@),
            },
    {
        if self.symbols.contains_key(name.as_str()) {
            Err(duplicate_declaration(name.as_str()))
        } else {
            self.symbols.insert(name, symbol);
            Ok(())
        }
    }

    /// The symbol that the scope binds `name` to, if it binds it.
    pub fn resolve(&self, name: &str) -> (found: Option<&Symbol>)
        ensures
            match found {
                Some(symbol) => self@.contains_key(name@) && symbol@ == self@[name@],
                None => !self@.contains_key(name@),
            },
    {
        self.symbols.get(name)
    }
}

/// The resolver's state: the scopes that are open, innermost last, and the
/// return type of the function whose body is being resolved.
pub struct Resolver {
    pub scopes: Vec<Scope>,
    pub current_function_return_type: Option<Type>,
}

/// The mathematical value of a [`Resolver`].
pub struct ResolverView {
    pub scopes: Seq<Map<Seq<char>, SymbolView>>,
    pub return_type: Option<Type>,
}

impl View for Resolver {
    type V = ResolverView;

    open spec fn view(&self) -> ResolverView {
        ResolverView {
            scopes: Seq::new(self.scopes.len() as nat, |i: int| self.scopes[i]@),
            return_type: self.current_function_return_type,
        }
    }
}

impl Resolver {
    /// A resolver with the global scope open and empty, outside any
    /// function.
    pub fn new() -> (resolver: Self)
        ensures
            resolver@ == (ResolverView {
                scopes: seq![Map::<Seq<char>, SymbolView>::empty()],
                return_type: None,
            }),
    {
        let mut scopes: Vec<Scope> = Vec::new();
        scopes.push(Scope::new());
        let resolver = Resolver { scopes, current_function_return_type: None };
        assert(resolver@.scopes =~= seq![Map::<Seq<char>, SymbolView>::empty()]);
        resolver
    }

    /// Opens an empty scope inside the innermost one.
    pub fn begin_scope(&mut self)
        ensures
            final(self)@.scopes == old(self)@.scopes.push(Map::<Seq<char>, SymbolView>::empty()),
            final(self)@.return_type == old(self)@.return_type,
    {
        self.scopes.push(Scope::new());
    }

    /// Closes the innermost scope, if any is open.
    pub fn end_scope(&mut self)
        ensures
            final(self)@.scopes == if old(self)@.scopes.len() > 0 {
                old(self)@.scopes.drop_last()
            } else {
                old(self)@.scopes
            },
            final(self)@.return_type == old(self)@.return_type,
    {
        self.scopes.pop();
        assert(self@.scopes =~= if old(self)@.scopes.len() > 0 {
            old(self)@.scopes.drop_last()
        } else {
            old(self)@.scopes
        });
    }

    /// Binds `name` to `symbol` in the innermost scope. Fails if that scope
    /// binds the name already; a binding of the name in an outer scope is
    /// shadowed. With no scope open nothing is bound.
    pub fn define_symbol(&mut self, name: String, symbol: Symbol) -> (res: Result<(), PulseError>)
        ensures
            final(self)@.return_type == old(self)@.return_type,
            match res {
                Ok(_) => declare(old(self)@.scopes, name@, symbol@) matches Ok(next) && next
                    == final(self)@.scopes,
                Err(error) => {
                    &&& declare(old(self)@.scopes, name@, symbol@) matches Err(failure)
                        && failure == error@
                    &&& final(self)@.scopes == old(self)@.scopes
                },
            },
    {
        let depth = self.scopes.len();
        if depth == 0 {
            return Ok(());
        }
        let ghost key = name@;
        let ghost value = symbol@;
        let mut scope = self.scopes.pop().unwrap();
        let res = scope.define(name, symbol);
        self.scopes.push(scope);
        proof {
            let before = old(self)@.scopes;
            if res.is_ok() {
                assert(self@.scopes =~= before.update(
                    before.len() - 1,
                    before.last().insert(key, value),
                ));
            }
        }
        res
    }

    /// The symbol that `name` stands for: that of the innermost scope that
    /// binds it.
    pub fn resolve_symbol(&self, name: &str) -> (found: Option<Symbol>)
        ensures
            match found {
                Some(symbol) => lookup(self@.scopes, name@) == Some(symbol@),
                None => lookup(self@.scopes, name@).is_none(),
            },
    {
        let mut i = self.scopes.len();
        assert(self@.scopes.subrange(0, i as int) =~= self@.scopes);
        while i > 0
            invariant
                i <= self.scopes.len(),
                lookup(self@.scopes, name@) == lookup(self@.scopes.subrange(0, i as int), name@),
            decreases i,
        {
            i -= 1;
            let ghost prefix = self@.scopes.subrange(0, i + 1);
            assert(prefix.drop_last() =~= self@.scopes.subrange(0, i as int));
            match self.scopes[i].resolve(name) {
                Some(symbol) => {
                    return Some(symbol.clone());
                },
                None => {},
            }
        }
        None
    }
}

} // verus!
