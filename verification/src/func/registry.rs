//! The registry: which schemas are advertised, and which executor serves
//! which name.

use std::sync::Arc;
use vstd::prelude::*;
use crate::error::{AiError, AiResult, RegistryError};
use crate::func::executor::{may_declare, may_omit, ExecutorStep, FunctionExecutor};
use crate::func::system::platform::Platform;
use crate::name_map::NameMap;
use crate::provider::{definition_views, DefinitionSpec, FunctionCall, FunctionDefinition};
use crate::text::{has_text, views};

verus! {

/// The schemas with `defs` among them, a later one replacing an earlier
/// one of the same name.
pub open spec fn with_schemas(functions: Map<Seq<char>, DefinitionSpec>, defs: Seq<DefinitionSpec>)
    -> Map<Seq<char>, DefinitionSpec>
    decreases defs.len(),
{
    if defs.len() == 0 {
        functions
    } else {
        with_schemas(functions, defs.drop_last()).insert(defs.last().name, defs.last())
    }
}

/// The bindings with `executor` bound to each of `names`.
pub open spec fn with_bindings<E>(
    executors: Map<Seq<char>, Arc<E>>,
    names: Seq<Seq<char>>,
    executor: Arc<E>,
) -> Map<Seq<char>, Arc<E>>
    decreases names.len(),
{
    if names.len() == 0 {
        executors
    } else {
        with_bindings(executors, names.drop_last(), executor).insert(names.last(), executor)
    }
}

/// Binding an executor to a list of names binds each of the names to the
/// executor and leaves every other name as it was.
pub proof fn lemma_with_bindings<E>(
    executors: Map<Seq<char>, Arc<E>>,
    names: Seq<Seq<char>>,
    executor: Arc<E>,
)
    ensures
        forall|n: Seq<char>|
            names.contains(n) ==> #[trigger] with_bindings(executors, names, executor).contains_key(
                n,
            ) && with_bindings(executors, names, executor)[n] == executor,
        forall|n: Seq<char>|
            !names.contains(n) ==> (#[trigger] with_bindings(executors, names, executor).contains_key(
                n,
            ) == executors.contains_key(n)) && with_bindings(executors, names, executor)[n]
                == executors[n],
    decreases names.len(),
{
    if names.len() > 0 {
        let head = names.drop_last();
        lemma_with_bindings(executors, head, executor);
        let before = with_bindings(executors, head, executor);
        let after = with_bindings(executors, names, executor);
        assert(after == before.insert(names.last(), executor));
        assert forall|n: Seq<char>| names.contains(n) implies #[trigger] after.contains_key(n)
            && after[n] == executor by {
            if n != names.last() {
                let i = choose|i: int| 0 <= i < names.len() && names[i] == n;
                assert(head[i] == n);
                assert(head.contains(n));
                assert(before.contains_key(n));
            }
        }
        assert forall|n: Seq<char>| !names.contains(n) implies (#[trigger] after.contains_key(n)
            == executors.contains_key(n)) && after[n] == executors[n] by {
            assert(names[names.len() - 1] == names.last());
            if head.contains(n) {
                let i = choose|i: int| 0 <= i < head.len() && head[i] == n;
                assert(names[i] == n);
            }
            assert(before.contains_key(n) == executors.contains_key(n));
        }
    }
}

/// Registering one list of schemas and then another is registering the
/// two lists in a row.
pub proof fn lemma_with_schemas_twice(
    functions: Map<Seq<char>, DefinitionSpec>,
    a: Seq<DefinitionSpec>,
    b: Seq<DefinitionSpec>,
)
    ensures
        with_schemas(with_schemas(functions, a), b) == with_schemas(functions, a + b),
    decreases b.len(),
{
    if b.len() == 0 {
        assert(a + b =~= a);
    } else {
        lemma_with_schemas_twice(functions, a, b.drop_last());
        assert((a + b).drop_last() =~= a + b.drop_last());
        assert((a + b).last() == b.last());
    }
}

/// Each schema of a list stands under its name once the list is
/// registered, and a name outside the list stands as it stood.
pub proof fn lemma_with_schemas_names(functions: Map<Seq<char>, DefinitionSpec>, defs: Seq<
    DefinitionSpec,
>)
    ensures
        forall|i: int|
            0 <= i < defs.len() ==> with_schemas(functions, defs).contains_key(
                (#[trigger] defs[i]).name,
            ),
        forall|n: Seq<char>|
            (forall|i: int| 0 <= i < defs.len() ==> (#[trigger] defs[i]).name != n) ==> (
            #[trigger] with_schemas(functions, defs).contains_key(n) == functions.contains_key(n))
                && with_schemas(functions, defs)[n] == functions[n],
    decreases defs.len(),
{
    if defs.len() > 0 {
        let head = defs.drop_last();
        lemma_with_schemas_names(functions, head);
        let before = with_schemas(functions, head);
        assert(with_schemas(functions, defs) == before.insert(defs.last().name, defs.last()));
        assert forall|i: int| 0 <= i < defs.len() implies with_schemas(functions, defs).contains_key(
            (#[trigger] defs[i]).name,
        ) by {
            if i < head.len() {
                assert(head[i] == defs[i]);
                assert(before.contains_key(head[i].name));
            }
        }
        assert forall|n: Seq<char>|
            (forall|i: int| 0 <= i < defs.len() ==> (#[trigger] defs[i]).name != n) implies (
        #[trigger] with_schemas(functions, defs).contains_key(n) == functions.contains_key(n))
            && with_schemas(functions, defs)[n] == functions[n] by {
            assert(defs[defs.len() - 1].name != n);
            assert forall|i: int| 0 <= i < head.len() implies (#[trigger] head[i]).name != n by {
                assert(defs[i].name != n);
            }
            assert(before.contains_key(n) == functions.contains_key(n));
        }
    }
}

/// What a registry holds: a schema for some names, an executor for some.
#[verifier::reject_recursive_types(E)]
pub struct RegistryState<E> {
    pub functions: Map<Seq<char>, DefinitionSpec>,
    pub executors: Map<Seq<char>, Arc<E>>,
}

impl<E: FunctionExecutor> RegistryState<E> {
    /// The state of a registry without entries.
    pub open spec fn empty() -> Self {
        RegistryState { functions: Map::empty(), executors: Map::empty() }
    }

    /// The state with `def` as the schema of its name.
    pub open spec fn with_function(self, def: DefinitionSpec) -> Self {
        RegistryState { functions: self.functions.insert(def.name, def), executors: self.executors }
    }

    /// The state with the schemas `defs`, a later one replacing an earlier
    /// one of the same name.
    pub open spec fn with_functions(self, defs: Seq<DefinitionSpec>) -> Self {
        RegistryState { functions: with_schemas(self.functions, defs), executors: self.executors }
    }

    /// Whether `executor` may be bound to `name`: it declares the name.
    pub open spec fn may_bind(name: Seq<char>, executor: Arc<E>) -> bool {
        may_declare(&*executor, name)
    }

    /// The state with `executor` bound to `name`.
    pub open spec fn with_executor(self, name: Seq<char>, executor: Arc<E>) -> Self {
        RegistryState { functions: self.functions, executors: self.executors.insert(name, executor) }
    }

    /// The state with `executor` bound to each of `names`.
    pub open spec fn with_executor_for(self, names: Seq<Seq<char>>, executor: Arc<E>) -> Self {
        RegistryState {
            functions: self.functions,
            executors: with_bindings(self.executors, names, executor),
        }
    }

    /// The state without the schema and without the executor of `name`.
    pub open spec fn without(self, name: Seq<char>) -> Self {
        RegistryState {
            functions: self.functions.remove(name),
            executors: self.executors.remove(name),
        }
    }

    /// The first place in `defs` whose name has a schema already, or the
    /// length of `defs`.
    pub open spec fn first_taken(self, defs: Seq<DefinitionSpec>, from: int) -> int
        decreases defs.len() - from,
    {
        if 0 <= from < defs.len() && !self.functions.contains_key(defs[from].name) {
            self.first_taken(defs, from + 1)
        } else {
            from
        }
    }

    /// Only the entries whose name is in `names`.
    pub open spec fn restricted(self, names: Set<Seq<char>>) -> Self {
        RegistryState {
            functions: self.functions.restrict(names),
            executors: self.executors.restrict(names),
        }
    }

    /// The entries that a list of tool names selects: all of them where
    /// the list is empty, else those whose name is in the list.
    pub open spec fn with_tools(self, tools: Seq<Seq<char>>) -> Self {
        if tools.len() == 0 {
            self
        } else {
            self.restricted(tools.to_set())
        }
    }

    /// Whether the registry holds `name`: it has a schema for it, or an
    /// executor is bound to it.
    pub open spec fn contains(self, name: Seq<char>) -> bool {
        self.functions.contains_key(name) || self.executors.contains_key(name)
    }

    /// The names that have a schema.
    pub open spec fn function_names(self) -> Set<Seq<char>> {
        self.functions.dom()
    }

    /// The state with the schemas `defs`, each under a name that had no
    /// schema before it; or the first name that had one.
    pub open spec fn add_new(self, defs: Seq<DefinitionSpec>) -> Result<Self, Seq<char>>
        decreases defs.len(),
    {
        if defs.len() == 0 {
            Ok(self)
        } else {
            match self.add_new(defs.drop_last()) {
                Err(name) => Err(name),
                Ok(state) => if state.functions.contains_key(defs.last().name) {
                    Err(defs.last().name)
                } else {
                    Ok(state.with_function(defs.last()))
                },
            }
        }
    }
}

/// Once a beginning of a list of schemas cannot be added, the whole list
/// cannot, for the same name.
pub proof fn lemma_add_new_fails_on<E: FunctionExecutor>(
    state: RegistryState<E>,
    defs: Seq<DefinitionSpec>,
    upto: int,
)
    requires
        0 <= upto <= defs.len(),
        state.add_new(defs.take(upto)) is Err,
    ensures
        state.add_new(defs) == state.add_new(defs.take(upto)),
    decreases defs.len() - upto,
{
    if upto == defs.len() {
        assert(defs.take(upto) =~= defs);
    } else {
        assert(defs.take(upto + 1).drop_last() =~= defs.take(upto));
        lemma_add_new_fails_on(state, defs, upto + 1);
    }
}

/// `list` names each key of `keys` exactly once and nothing else.
pub open spec fn lists_each_once(list: Seq<Seq<char>>, keys: Set<Seq<char>>) -> bool {
    &&& list.no_duplicates()
    &&& list.to_set() == keys
    &&& keys.finite()
    &&& list.len() == keys.len()
}

/// `list` holds each schema of `functions` exactly once and nothing else.
pub open spec fn lists_schemas(list: Seq<DefinitionSpec>, functions: Map<Seq<char>, DefinitionSpec>)
    -> bool {
    &&& lists_each_once(Seq::new(list.len(), |i: int| list[i].name), functions.dom())
    &&& forall|i: int| 0 <= i < list.len() ==> functions[(#[trigger] list[i]).name] == list[i]
}

/// The schemas of a map of definitions.
pub open spec fn schema_map(m: Map<Seq<char>, FunctionDefinition>) -> Map<Seq<char>, DefinitionSpec> {
    Map::new(|k: Seq<char>| m.contains_key(k), |k: Seq<char>| m[k]@)
}

/// The views of a list of borrowed schemas.
pub open spec fn borrowed_views(list: Seq<&FunctionDefinition>) -> Seq<DefinitionSpec> {
    Seq::new(list.len(), |i: int| list[i]@)
}

/// The registry of operations.
pub struct FunctionRegistry<E: FunctionExecutor> {
    functions: NameMap<FunctionDefinition>,
    executors: NameMap<Arc<E>>,
}

impl<E: FunctionExecutor> View for FunctionRegistry<E> {
    type V = RegistryState<E>;

    closed spec fn view(&self) -> RegistryState<E> {
        RegistryState {
            functions: schema_map(self.functions@),
            executors: self.executors@,
        }
    }
}

impl<E: FunctionExecutor> FunctionRegistry<E> {
    /// What holds of every registry: a schema stands under its own name,
    /// and an executor is bound only to names that it declares.
    pub closed spec fn wf(&self) -> bool {
        &&& self.functions.wf()
        &&& self.executors.wf()
        &&& forall|k: Seq<char>| #[trigger]
            self.functions@.contains_key(k) ==> self.functions@[k].name@ == k
        &&& forall|k: Seq<char>| #[trigger]
            self.executors@.contains_key(k) ==> may_declare(&*self.executors@[k], k)
    }

    /// A registry without entries.
    pub fn new() -> (r: Self)
        ensures
            r.wf(),
            r@ == RegistryState::<E>::empty(),
    {
        let r = FunctionRegistry { functions: NameMap::new(), executors: NameMap::new() };
        assert(r@.functions =~= Map::<Seq<char>, DefinitionSpec>::empty());
        r
    }

    /// Registers a schema under its name, in place of an earlier schema of
    /// that name.
    pub fn register_function(&mut self, function: FunctionDefinition) -> (r: AiResult<()>)
        requires
            old(self).wf(),
        ensures
            final(self).wf(),
            r is Ok,
            final(self)@ == old(self)@.with_function(function@),
    {
        let name = function.name.clone();
        let ghost before = self.functions@;
        self.functions.insert(name, function);
        assert(schema_map(self.functions@) =~= schema_map(before).insert(function@.name, function@));
        Ok(())
    }

    /// Binds an executor to a name. The executor must declare that name;
    /// the registry then holds the name, served by this executor.
    pub fn register_executor(&mut self, name: String, executor: Arc<E>) -> (r: AiResult<()>)
        requires
            old(self).wf(),
        ensures
            final(self).wf(),
            r is Ok ==> final(self)@.contains(name@) && final(self)@.executors.contains_key(name@)
                && final(self)@.executors[name@] == executor,
            exists|names: Vec<String>|
                #![trigger call_ensures(E::supported_functions, (&*executor,), names)]
                call_ensures(E::supported_functions, (&*executor,), names) && if views(
                    names@,
                ).contains(name@) {
                    &&& r is Ok
                    &&& final(self)@ == old(self)@.with_executor(name@, executor)
                } else {
                    &&& final(self)@ == old(self)@
                    &&& r matches Err(AiError::Registry(RegistryError::ContractViolation(n)))
                    &&& n@ == name@
                },
            r is Ok ==> RegistryState::<E>::may_bind(name@, executor),
            r is Err ==> may_omit(&*executor, name@),
    {
        let declared = executor.supported_functions();
        if !has_text(&declared, name.as_str()) {
            return Err(AiError::Registry(RegistryError::ContractViolation(name)));
        }
        self.executors.insert(name, executor);
        Ok(())
    }

    /// Every schema, each once.
    pub fn get_functions(&self) -> (out: Vec<&FunctionDefinition>)
        requires
            self.wf(),
        ensures
            lists_schemas(borrowed_views(out@), self@.functions),
    {
        proof {
            self.functions.lemma_order();
        }
        let n = self.functions.len();
        let mut out: Vec<&FunctionDefinition> = Vec::new();
        let mut i: usize = 0;
        while i < n
            invariant
                0 <= i <= n == self.functions.order().len(),
                out@.len() == i,
                forall|k: int| 0 <= k < i ==> *(#[trigger] out@[k]) == self.functions.values()[k],
            decreases n - i,
        {
            out.push(self.functions.value_at(i));
            i += 1;
        }
        proof {
            let list = borrowed_views(out@);
            let names = Seq::new(list.len(), |i: int| list[i].name);
            let order = self.functions.order();
            assert forall|k: int| 0 <= k < list.len() implies #[trigger] names[k] == order[k] by {
                assert(self.functions@.contains_key(order[k]));
                assert(self.functions@[order[k]] == self.functions.values()[k]);
                assert(*out@[k] == self.functions.values()[k]);
            }
            assert(names =~= order);
            assert(self@.functions.dom() =~= self.functions@.dom());
            assert forall|k: int| 0 <= k < list.len() implies self@.functions[(
            #[trigger] list[k]).name] == list[k] by {
                assert(names[k] == order[k]);
                assert(self.functions@.contains_key(order[k]));
                assert(self.functions@[order[k]] == self.functions.values()[k]);
                assert(*out@[k] == self.functions.values()[k]);
            }
        }
        out
    }

    /// The executor that is bound to `function_name`.
    pub fn get_executor(&self, function_name: &str) -> (r: Option<Arc<E>>)
        requires
            self.wf(),
        ensures
            r == if self@.executors.contains_key(function_name@) {
                Some(self@.executors[function_name@])
            } else {
                None
            },
            r matches Some(e) ==> RegistryState::<E>::may_bind(function_name@, e),
    {
        match self.executors.get(function_name) {
            Some(e) => Some(e.clone()),
            None => None,
        }
    }

    /// The schema of `name`.
    pub fn get_function(&self, name: &str) -> (r: Option<&FunctionDefinition>)
        requires
            self.wf(),
        ensures
            r is Some <==> self@.functions.contains_key(name@),
            r matches Some(d) ==> d@ == self@.functions[name@] && d@.name == name@,
    {
        self.functions.get(name)
    }

    /// Hands a call to the executor that is bound to its name. Where none
    /// is bound the call fails with [`RegistryError::NotFound`]; else the
    /// answer is whatever that executor's `begin` gives for this call.
    pub fn execute_function(&self, function_call: &FunctionCall, platform: &Platform) -> (r:
        AiResult<ExecutorStep>)
        requires
            self.wf(),
        ensures
            !self@.executors.contains_key(function_call.function.name@) ==> (
            r matches Err(AiError::Registry(RegistryError::NotFound(n))) && n@
                == function_call.function.name@),
            self@.executors.contains_key(function_call.function.name@) ==> call_ensures(
                E::begin,
                (&*self@.executors[function_call.function.name@], function_call, platform),
                r,
            ),
    {
        match self.executors.get(function_call.function.name.as_str()) {
            Some(executor) => executor.begin(function_call, platform),
            None => Err(
                AiError::Registry(RegistryError::NotFound(function_call.function.name.clone())),
            ),
        }
    }

    /// Whether an executor is bound to `function_name`.
    pub fn supports_function(&self, function_name: &str) -> (r: bool)
        ensures
            r == self@.executors.contains_key(function_name@),
    {
        self.executors.contains(function_name)
    }

    /// Whether the registry holds `name`: it has a schema for it, or an
    /// executor is bound to it.
    pub fn contains_function(&self, name: &str) -> (r: bool)
        ensures
            r == self@.contains(name@),
    {
        self.functions.contains(name) || self.executors.contains(name)
    }

    /// Whether `name` has a schema.
    fn has_schema(&self, name: &str) -> (r: bool)
        ensures
            r == self@.functions.contains_key(name@),
    {
        self.functions.contains(name)
    }

    /// The names that an executor is bound to, each once.
    pub fn get_supported_function_names(&self) -> (out: Vec<String>)
        requires
            self.wf(),
        ensures
            lists_each_once(views(out@), self@.executors.dom()),
    {
        proof {
            self.executors.lemma_order();
        }
        self.executors.names()
    }

    /// The names that have a schema, each once.
    pub fn get_function_names(&self) -> (out: Vec<String>)
        requires
            self.wf(),
        ensures
            lists_each_once(views(out@), self@.functions.dom()),
    {
        proof {
            self.functions.lemma_order();
            assert(self@.functions.dom() =~= self.functions@.dom());
        }
        self.functions.names()
    }

    /// The number of names that have a schema.
    pub fn function_count(&self) -> (n: usize)
        requires
            self.wf(),
        ensures
            self@.functions.dom().finite(),
            n == self@.functions.dom().len(),
    {
        proof {
            assert(self@.functions.dom() =~= self.functions@.dom());
        }
        self.functions.len()
    }

    /// Takes the schema and the executor of `function_name` out. Returns
    /// whether there was either.
    pub fn unregister_function(&mut self, function_name: &str) -> (removed: bool)
        requires
            old(self).wf(),
        ensures
            final(self).wf(),
            final(self)@ == old(self)@.without(function_name@),
            removed == (old(self)@.functions.contains_key(function_name@) || old(
                self,
            )@.executors.contains_key(function_name@)),
    {
        let ghost before = self.functions@;
        let function_removed = self.functions.remove(function_name);
        let executor_removed = self.executors.remove(function_name);
        assert(schema_map(self.functions@) =~= schema_map(before).remove(function_name@));
        function_removed || executor_removed
    }

    /// Registers every schema of `functions`, in order.
    pub fn register_functions(&mut self, functions: Vec<FunctionDefinition>) -> (r: AiResult<()>)
        requires
            old(self).wf(),
        ensures
            final(self).wf(),
            r is Ok,
            final(self)@ == old(self)@.with_functions(definition_views(functions@)),
    {
        let ghost defs = definition_views(functions@);
        let mut i: usize = 0;
        assert(defs.take(0) =~= Seq::<DefinitionSpec>::empty());
        while i < functions.len()
            invariant
                0 <= i <= functions@.len(),
                defs == definition_views(functions@),
                self.wf(),
                self@ == old(self)@.with_functions(defs.take(i as int)),
            decreases functions@.len() - i,
        {
            let _ = self.register_function(functions[i].clone());
            proof {
                assert(defs.take(i + 1).drop_last() =~= defs.take(i as int));
                assert(defs.take(i + 1).last() == defs[i as int]);
            }
            i += 1;
        }
        assert(defs.take(functions@.len() as int) =~= defs);
        Ok(())
    }

    /// Registers every schema of `functions`, or none: if the name of one
    /// of them has a schema already, nothing is registered and the first
    /// such name is reported.
    pub fn register_functions_batch(&mut self, functions: Vec<FunctionDefinition>) -> (r:
        AiResult<()>)
        requires
            old(self).wf(),
        ensures
            final(self).wf(),
            ({
                let defs = definition_views(functions@);
                let taken = old(self)@.first_taken(defs, 0);
                if taken < defs.len() {
                    &&& final(self)@ == old(self)@
                    &&& r matches Err(AiError::Registry(RegistryError::AlreadyRegistered(n)))
                    &&& n@ == defs[taken].name
                } else {
                    &&& r is Ok
                    &&& final(self)@ == old(self)@.with_functions(defs)
                }
            }),
    {
        let ghost defs = definition_views(functions@);
        let mut i: usize = 0;
        while i < functions.len()
            invariant
                0 <= i <= functions@.len(),
                defs == definition_views(functions@),
                self.wf(),
                self@ == old(self)@,
                self@.first_taken(defs, i as int) == self@.first_taken(defs, 0),
            decreases functions@.len() - i,
        {
            if self.has_schema(functions[i].name.as_str()) {
                return Err(
                    AiError::Registry(
                        RegistryError::AlreadyRegistered(functions[i].name.clone()),
                    ),
                );
            }
            i += 1;
        }
        self.register_functions(functions)
    }

    /// Binds an executor to each of the given names, which it declares.
    pub fn bind_names(&mut self, names: &Vec<String>, executor: Arc<E>)
        requires
            old(self).wf(),
            call_ensures(E::supported_functions, (&*executor,), *names),
        ensures
            final(self).wf(),
            final(self)@ == old(self)@.with_executor_for(views(names@), executor),
    {
        let ghost declared = views(names@);
        let mut i: usize = 0;
        assert(declared.take(0) =~= Seq::<Seq<char>>::empty());
        while i < names.len()
            invariant
                0 <= i <= names@.len(),
                views(names@) == declared,
                call_ensures(E::supported_functions, (&*executor,), *names),
                self.wf(),
                self@ == old(self)@.with_executor_for(declared.take(i as int), executor),
            decreases names@.len() - i,
        {
            proof {
                assert(declared.take(i + 1).drop_last() =~= declared.take(i as int));
                assert(declared.take(i + 1).last() == declared[i as int]);
                assert(views(names@)[i as int] == names@[i as int]@);
                assert(declared.contains(declared[i as int]));
                assert(may_declare(&*executor, names@[i as int]@));
            }
            self.executors.insert(names[i].clone(), executor.clone());
            i += 1;
        }
        assert(declared.take(names@.len() as int) =~= declared);
    }

    /// Binds an executor to each of the names that it declares, and
    /// returns those names as the executor gave them.
    pub fn bind_declared(&mut self, executor: Arc<E>) -> (names: Vec<String>)
        requires
            old(self).wf(),
        ensures
            final(self).wf(),
            call_ensures(E::supported_functions, (&*executor,), names),
            final(self)@ == old(self)@.with_executor_for(views(names@), executor),
    {
        let names = executor.supported_functions();
        self.bind_names(&names, executor);
        names
    }

    /// Registers each schema of `functions` under a name that has no
    /// schema yet. Returns the first name that has one, where there is
    /// one; the schemas before it are registered then.
    pub fn register_new_functions(&mut self, functions: &Vec<FunctionDefinition>) -> (r: Option<
        String,
    >)
        requires
            old(self).wf(),
        ensures
            final(self).wf(),
            final(self)@.executors == old(self)@.executors,
            match old(self)@.add_new(definition_views(functions@)) {
                Ok(state) => r is None && final(self)@ == state,
                Err(name) => r matches Some(n) && n@ == name,
            },
    {
        let ghost defs = definition_views(functions@);
        let mut i: usize = 0;
        assert(defs.take(0) =~= Seq::<DefinitionSpec>::empty());
        while i < functions.len()
            invariant
                0 <= i <= functions@.len(),
                defs == definition_views(functions@),
                self.wf(),
                self@.executors == old(self)@.executors,
                old(self)@.add_new(defs.take(i as int)) == Ok::<RegistryState<E>, Seq<char>>(self@),
            decreases functions@.len() - i,
        {
            proof {
                assert(defs.take(i + 1).drop_last() =~= defs.take(i as int));
                assert(defs.take(i + 1).last() == functions@[i as int]@);
            }
            if self.has_schema(functions[i].name.as_str()) {
                proof {
                    lemma_add_new_fails_on(old(self)@, defs, i + 1);
                }
                return Some(functions[i].name.clone());
            }
            let _ = self.register_function(functions[i].clone());
            i += 1;
        }
        assert(defs.take(functions@.len() as int) =~= defs);
        None
    }

    /// A registry with the entries of this one whose name passes: every
    /// name where `all` is set, else the names in `tools`.
    fn copy_selected(&self, tools: &Vec<String>, all: bool) -> (r: Self)
        requires
            self.wf(),
        ensures
            r.wf(),
            r@ == self@.restricted(
                if all {
                    Set::full()
                } else {
                    views(tools@).to_set()
                },
            ),
    {
        proof {
            self.functions.lemma_order();
            self.executors.lemma_order();
        }
        let ghost keep: Set<Seq<char>> = if all {
            Set::full()
        } else {
            views(tools@).to_set()
        };
        let mut functions: NameMap<FunctionDefinition> = NameMap::new();
        let n = self.functions.len();
        let mut i: usize = 0;
        while i < n
            invariant
                0 <= i <= n == self.functions.order().len(),
                self.functions.wf(),
                functions.wf(),
                keep == if all {
                    Set::<Seq<char>>::full()
                } else {
                    views(tools@).to_set()
                },
                self.functions.order().no_duplicates(),
                forall|k: int|
                    0 <= k < n ==> self.functions@.contains_key(
                        #[trigger] self.functions.order()[k],
                    ) && self.functions@[self.functions.order()[k]] == self.functions.values()[k],
                forall|k: Seq<char>| #[trigger]
                    self.functions@.contains_key(k) ==> self.functions@[k].name@ == k,
                forall|k: Seq<char>| #[trigger]
                    functions@.contains_key(k) ==> functions@[k].name@ == k,
                schema_map(functions@) == schema_map(self.functions@).restrict(
                    keep.intersect(self.functions.order().take(i as int).to_set()),
                ),
            decreases n - i,
        {
            let name = self.functions.name_at(i);
            let ghost seen = self.functions.order().take(i as int).to_set();
            let ghost seen_next = self.functions.order().take(i + 1).to_set();
            proof {
                assert(self.functions.order().take(i + 1) =~= self.functions.order().take(
                    i as int,
                ).push(name@));
                assert(seen_next =~= seen.insert(name@)) by {
                    vstd::seq_lib::seq_to_set_is_finite(self.functions.order().take(i as int));
                    assert forall|x: Seq<char>| seen_next.contains(x) <==> seen.insert(
                        name@,
                    ).contains(x) by {
                        let a = self.functions.order().take(i as int);
                        let b = self.functions.order().take(i + 1);
                        if b.contains(x) {
                            let j = choose|j: int| 0 <= j < b.len() && b[j] == x;
                            if j < i {
                                assert(a[j] == x);
                            }
                        }
                        if a.contains(x) {
                            let j = choose|j: int| 0 <= j < a.len() && a[j] == x;
                            assert(b[j] == x);
                        }
                        if x == name@ {
                            assert(b[i as int] == x);
                        }
                    }
                }
            }
            if all || has_text(tools, name) {
                let ghost before = functions@;
                let def = self.functions.value_at(i).clone();
                assert(self.functions@.contains_key(name@));
                assert(self.functions@[name@] == self.functions.values()[i as int]);
                assert(def@ == self.functions@[name@]@);
                assert(def.name@ == name@);
                assert(keep.contains(name@));
                functions.insert(def.name.clone(), def);
                assert(functions@ == before.insert(name@, def));
                proof {
                    let lhs = schema_map(functions@);
                    let all_schemas = schema_map(self.functions@);
                    let rhs = all_schemas.restrict(keep.intersect(seen_next));
                    let was = all_schemas.restrict(keep.intersect(seen));
                    assert(schema_map(before) == was);
                    assert forall|x: Seq<char>| lhs.contains_key(x) <==> rhs.contains_key(x) by {
                        if x != name@ {
                            assert(schema_map(before).contains_key(x) == was.contains_key(x));
                        }
                    }
                    assert forall|x: Seq<char>| lhs.contains_key(x) implies lhs[x] == rhs[x] by {
                        if x != name@ {
                            assert(schema_map(before).contains_key(x) == was.contains_key(x));
                            assert(schema_map(before)[x] == was[x]);
                        }
                    }
                    assert(lhs =~= rhs);
                }
            } else {
                assert(keep.intersect(seen_next) =~= keep.intersect(seen));
            }
            i += 1;
        }
        proof {
            assert(self.functions.order().take(n as int) =~= self.functions.order());
            assert(schema_map(self.functions@).restrict(
                keep.intersect(self.functions.order().to_set()),
            ) =~= schema_map(self.functions@).restrict(keep));
        }
        let mut executors: NameMap<Arc<E>> = NameMap::new();
        let m = self.executors.len();
        let mut j: usize = 0;
        while j < m
            invariant
                0 <= j <= m == self.executors.order().len(),
                self.executors.wf(),
                executors.wf(),
                functions.wf(),
                forall|k: Seq<char>| #[trigger]
                    functions@.contains_key(k) ==> functions@[k].name@ == k,
                schema_map(functions@) == schema_map(self.functions@).restrict(keep),
                forall|k: Seq<char>| #[trigger]
                    executors@.contains_key(k) ==> may_declare(&*executors@[k], k),
                keep == if all {
                    Set::<Seq<char>>::full()
                } else {
                    views(tools@).to_set()
                },
                forall|k: int|
                    0 <= k < m ==> self.executors@.contains_key(
                        #[trigger] self.executors.order()[k],
                    ) && self.executors@[self.executors.order()[k]] == self.executors.values()[k],
                forall|k: Seq<char>| #[trigger]
                    self.executors@.contains_key(k) ==> may_declare(&*self.executors@[k], k),
                executors@ == self.executors@.restrict(
                    keep.intersect(self.executors.order().take(j as int).to_set()),
                ),
            decreases m - j,
        {
            let name = self.executors.name_at(j);
            let ghost seen = self.executors.order().take(j as int).to_set();
            let ghost seen_next = self.executors.order().take(j + 1).to_set();
            proof {
                assert(seen_next =~= seen.insert(name@)) by {
                    assert forall|x: Seq<char>| seen_next.contains(x) <==> seen.insert(
                        name@,
                    ).contains(x) by {
                        let a = self.executors.order().take(j as int);
                        let b = self.executors.order().take(j + 1);
                        if b.contains(x) {
                            let q = choose|q: int| 0 <= q < b.len() && b[q] == x;
                            if q < j {
                                assert(a[q] == x);
                            }
                        }
                        if a.contains(x) {
                            let q = choose|q: int| 0 <= q < a.len() && a[q] == x;
                            assert(b[q] == x);
                        }
                        if x == name@ {
                            assert(b[j as int] == x);
                        }
                    }
                }
            }
            if all || has_text(tools, name) {
                let executor = self.executors.value_at(j).clone();
                assert(self.executors@.contains_key(name@));
                assert(self.executors@[name@] == self.executors.values()[j as int]);
                assert(keep.contains(name@));
                executors.insert(name.to_owned(), executor);
                assert(executors@ =~= self.executors@.restrict(keep.intersect(seen_next)));
            } else {
                assert(keep.intersect(seen_next) =~= keep.intersect(seen));
            }
            j += 1;
        }
        proof {
            assert(self.executors.order().take(m as int) =~= self.executors.order());
            assert(self.executors@.restrict(keep.intersect(self.executors.order().to_set()))
                =~= self.executors@.restrict(keep));
        }
        FunctionRegistry { functions, executors }
    }

    /// A second registry with the same schemas and the same executors.
    /// The executors are shared, the schemas are copies.
    pub fn clone_registry(&self) -> (r: Self)
        requires
            self.wf(),
        ensures
            r.wf(),
            r@ == self@,
            r@.function_names() == self@.function_names(),
            forall|name: Seq<char>| #[trigger]
                self@.executors.contains_key(name) ==> r@.executors.contains_key(name)
                    && r@.executors[name] == self@.executors[name],
    {
        let none: Vec<String> = Vec::new();
        let r = self.copy_selected(&none, true);
        assert(self@.functions.restrict(Set::full()) =~= self@.functions);
        assert(self@.executors.restrict(Set::full()) =~= self@.executors);
        r
    }

    /// A registry with the entries that `tools` selects: a copy of the
    /// whole registry where `tools` is empty, else the entries whose name
    /// is in `tools`.
    pub fn with_tools(&self, tools: &Vec<String>) -> (r: Self)
        requires
            self.wf(),
        ensures
            r.wf(),
            r@ == self@.with_tools(views(tools@)),
    {
        if tools.len() == 0 {
            self.clone_registry()
        } else {
            self.copy_selected(tools, false)
        }
    }

    /// A copy of every schema, each once.
    pub fn clone_functions(&self) -> (out: Vec<FunctionDefinition>)
        requires
            self.wf(),
        ensures
            lists_schemas(definition_views(out@), self@.functions),
    {
        let borrowed = self.get_functions();
        let mut out: Vec<FunctionDefinition> = Vec::new();
        let mut i: usize = 0;
        while i < borrowed.len()
            invariant
                0 <= i <= borrowed@.len(),
                out@.len() == i,
                forall|k: int| 0 <= k < i ==> (#[trigger] out@[k])@ == borrowed@[k]@,
            decreases borrowed@.len() - i,
        {
            out.push(borrowed[i].clone());
            i += 1;
        }
        assert(definition_views(out@) =~= borrowed_views(borrowed@));
        out
    }
}

/// The names of a list of schemas.
pub open spec fn names_of_schemas(defs: Seq<DefinitionSpec>) -> Seq<Seq<char>> {
    Seq::new(defs.len(), |i: int| defs[i].name)
}

/// Whether the name of each of the schemas is among the declared names.
pub open spec fn all_declared(declared: Seq<Seq<char>>, defs: Seq<DefinitionSpec>) -> bool {
    forall|i: int| 0 <= i < defs.len() ==> declared.contains((#[trigger] defs[i]).name)
}

impl<E: FunctionExecutor> RegistryState<E> {
    /// The state with a set of tools registered: the schemas, each under a
    /// name that had none, and the executor for every name that it
    /// declares. Nothing where the executor does not declare one of the
    /// schemas or a name is taken.
    pub open spec fn with_tool_set(
        self,
        defs: Seq<DefinitionSpec>,
        declared: Seq<Seq<char>>,
        executor: Arc<E>,
    ) -> Option<Self> {
        if !all_declared(declared, defs) {
            None
        } else {
            match self.add_new(defs) {
                Ok(added) => Some(added.with_executor_for(declared, executor)),
                Err(_) => None,
            }
        }
    }

    /// The state with the first `upto` of the given sets of tools
    /// registered one after the other, each with its executor. Nothing
    /// where one of them cannot be registered.
    pub open spec fn with_tool_sets(
        self,
        sets: Seq<Seq<DefinitionSpec>>,
        declared: Seq<Seq<Seq<char>>>,
        executors: Seq<Arc<E>>,
        upto: int,
    ) -> Option<Self>
        decreases upto,
    {
        if upto <= 0 {
            Some(self)
        } else {
            match self.with_tool_sets(sets, declared, executors, upto - 1) {
                Some(state) => state.with_tool_set(
                    sets[upto - 1],
                    declared[upto - 1],
                    executors[upto - 1],
                ),
                None => None,
            }
        }
    }
}

/// The names of the first `upto` sets of tools.
pub open spec fn names_of_sets(sets: Seq<Seq<DefinitionSpec>>, upto: int) -> Set<Seq<char>>
    decreases upto,
{
    if upto <= 0 {
        Set::empty()
    } else {
        names_of_sets(sets, upto - 1).union(names_of_schemas(sets[upto - 1]).to_set())
    }
}

/// Once an executor that declares a name is bound to it, the registry
/// holds the name and that executor serves it; once the name is
/// unregistered the registry no longer holds it: it has neither an
/// executor nor a schema.
pub proof fn law_bind_and_unregister<E: FunctionExecutor>(
    state: RegistryState<E>,
    name: Seq<char>,
    executor: Arc<E>,
)
    requires
        RegistryState::<E>::may_bind(name, executor),
    ensures
        state.with_executor(name, executor).contains(name),
        state.with_executor(name, executor).executors.contains_key(name),
        state.with_executor(name, executor).executors[name] == executor,
        !state.with_executor(name, executor).without(name).contains(name),
        !state.with_executor(name, executor).without(name).executors.contains_key(name),
        !state.with_executor(name, executor).without(name).functions.contains_key(name),
{
}

/// A schema that is registered stands under its name, which the registry
/// then holds; once the name is unregistered the registry no longer holds
/// it.
pub proof fn law_register_and_unregister<E: FunctionExecutor>(
    state: RegistryState<E>,
    def: DefinitionSpec,
)
    ensures
        state.with_function(def).contains(def.name),
        state.with_function(def).functions.contains_key(def.name),
        state.with_function(def).functions[def.name] == def,
        !state.with_function(def).without(def.name).contains(def.name),
{
}

/// What a list of tool names selects: everything where the list is
/// empty; else exactly the names of the registry that are in the list,
/// with their schemas and executors as they are. A list of names that the
/// registry does not have selects nothing.
pub proof fn law_tools_select<E: FunctionExecutor>(state: RegistryState<E>, tools: Seq<Seq<char>>)
    ensures
        tools.len() == 0 ==> state.with_tools(tools) == state,
        tools.len() > 0 ==> state.with_tools(tools).function_names() == state.function_names().intersect(
            tools.to_set(),
        ),
        tools.len() > 0 ==> state.with_tools(tools).executors.dom() == state.executors.dom().intersect(
            tools.to_set(),
        ),
        forall|name: Seq<char>| #[trigger]
            state.with_tools(tools).functions.contains_key(name) ==> state.functions.contains_key(
                name,
            ) && state.with_tools(tools).functions[name] == state.functions[name],
        forall|name: Seq<char>| #[trigger]
            state.with_tools(tools).executors.contains_key(name) ==> state.executors.contains_key(
                name,
            ) && state.with_tools(tools).executors[name] == state.executors[name],
        tools.len() > 0 && (forall|i: int|
            0 <= i < tools.len() ==> !state.functions.contains_key(#[trigger] tools[i]))
            ==> state.with_tools(tools).function_names() == Set::<Seq<char>>::empty(),
{
    if tools.len() > 0 {
        let selected = state.with_tools(tools);
        assert(selected.function_names() =~= state.function_names().intersect(tools.to_set()));
        assert(selected.executors.dom() =~= state.executors.dom().intersect(tools.to_set()));
        if forall|i: int| 0 <= i < tools.len() ==> !state.functions.contains_key(#[trigger] tools[i]) {
            assert forall|name: Seq<char>| !selected.function_names().contains(name) by {
                if tools.contains(name) {
                    let i = choose|i: int| 0 <= i < tools.len() && tools[i] == name;
                    assert(!state.functions.contains_key(tools[i]));
                }
            }
            assert(selected.function_names() =~= Set::<Seq<char>>::empty());
        }
    }
}

/// Two registries of the same state have the same names, and each name is
/// served by the same executor in both.
pub proof fn law_copy_shares_executors<E: FunctionExecutor>(
    source: RegistryState<E>,
    copy: RegistryState<E>,
    name: Seq<char>,
)
    requires
        copy == source,
    ensures
        copy.function_names() == source.function_names(),
        copy.executors.dom() == source.executors.dom(),
        source.executors.contains_key(name) ==> copy.executors[name] == source.executors[name],
{
}

/// Schemas under names that are new and differ from one another are all
/// added: the registry has as many names more as there are schemas.
pub proof fn lemma_add_new_fresh<E: FunctionExecutor>(
    state: RegistryState<E>,
    defs: Seq<DefinitionSpec>,
)
    requires
        state.functions.dom().finite(),
        names_of_schemas(defs).no_duplicates(),
        forall|i: int| 0 <= i < defs.len() ==> !state.functions.contains_key((#[trigger] defs[i]).name),
    ensures
        state.add_new(defs) matches Ok(added) && added.executors == state.executors
            && added.functions.dom() == state.functions.dom().union(
            names_of_schemas(defs).to_set(),
        ) && added.functions.dom().finite() && added.functions.dom().len()
            == state.functions.dom().len() + defs.len(),
    decreases defs.len(),
{
    let names = names_of_schemas(defs);
    if defs.len() == 0 {
        assert(state.functions.dom().union(names.to_set()) =~= state.functions.dom());
    } else {
        let head = defs.drop_last();
        let head_names = names_of_schemas(head);
        assert(head_names =~= names.drop_last());
        assert forall|i: int, j: int|
            0 <= i < head_names.len() && 0 <= j < head_names.len() && i != j implies head_names[i]
            != head_names[j] by {
            assert(names[i] != names[j]);
        }
        assert forall|i: int| 0 <= i < head.len() implies !state.functions.contains_key(
            (#[trigger] head[i]).name,
        ) by {
            assert(head[i] == defs[i]);
        }
        lemma_add_new_fresh(state, head);
        let before = state.add_new(head)->Ok_0;
        let last = defs.last();
        assert(!before.functions.contains_key(last.name)) by {
            assert(!state.functions.contains_key(defs[defs.len() - 1].name));
            if head_names.to_set().contains(last.name) {
                let i = choose|i: int| 0 <= i < head_names.len() && head_names[i] == last.name;
                assert(names[i] == names[names.len() - 1]);
            }
        }
        let added = before.with_function(last);
        assert(state.add_new(defs) == Ok::<RegistryState<E>, Seq<char>>(added));
        assert(added.functions.dom() =~= state.functions.dom().union(names.to_set())) by {
            assert forall|n: Seq<char>| names.to_set().contains(n) <==> (head_names.to_set().contains(
                n,
            ) || n == last.name) by {
                if names.contains(n) {
                    let i = choose|i: int| 0 <= i < names.len() && names[i] == n;
                    if i < head_names.len() {
                        assert(head_names[i] == n);
                    }
                }
                if head_names.contains(n) {
                    let i = choose|i: int| 0 <= i < head_names.len() && head_names[i] == n;
                    assert(names[i] == n);
                }
                if n == last.name {
                    assert(names[names.len() - 1] == n);
                }
            }
        }
    }
}

/// Sets of tools whose names are new, differ from one another and are
/// declared by their executors can all be registered, in any order of
/// arrival that puts them in a row: with `k` schemas in each of the
/// first `upto` sets, the registry has `upto * k` names more afterwards.
pub proof fn law_disjoint_tool_sets<E: FunctionExecutor>(
    state: RegistryState<E>,
    sets: Seq<Seq<DefinitionSpec>>,
    declared: Seq<Seq<Seq<char>>>,
    executors: Seq<Arc<E>>,
    k: nat,
    upto: int,
)
    requires
        0 <= upto <= sets.len(),
        sets.len() == executors.len(),
        sets.len() == declared.len(),
        state.functions.dom().finite(),
        forall|i: int| 0 <= i < sets.len() ==> (#[trigger] sets[i]).len() == k,
        forall|i: int| 0 <= i < sets.len() ==> all_declared(declared[i], #[trigger] sets[i]),
        forall|i: int| 0 <= i < sets.len() ==> names_of_schemas(#[trigger] sets[i]).no_duplicates(),
        forall|i: int, a: int|
            0 <= i < sets.len() && 0 <= a < sets[i].len() ==> !state.functions.contains_key(
                (#[trigger] sets[i][a]).name,
            ),
        forall|i: int, j: int, a: int, b: int|
            0 <= i < j < sets.len() && 0 <= a < sets[i].len() && 0 <= b < sets[j].len() ==> (
            #[trigger] sets[i][a]).name != (#[trigger] sets[j][b]).name,
    ensures
        state.with_tool_sets(sets, declared, executors, upto) matches Some(after)
            && after.functions.dom().finite() && after.functions.dom().len()
            == state.functions.dom().len() + upto * k && after.functions.dom()
            == state.functions.dom().union(names_of_sets(sets, upto)),
    decreases upto,
{
    if upto == 0 {
        assert(state.functions.dom().union(names_of_sets(sets, 0)) =~= state.functions.dom());
    } else {
        law_disjoint_tool_sets(state, sets, declared, executors, k, upto - 1);
        let before = state.with_tool_sets(sets, declared, executors, upto - 1)->Some_0;
        let defs = sets[upto - 1];
        assert forall|a: int| 0 <= a < defs.len() implies !before.functions.contains_key(
            (#[trigger] defs[a]).name,
        ) by {
            assert(!state.functions.contains_key(sets[upto - 1][a].name));
            lemma_names_of_sets(sets, upto - 1, defs[a].name);
            if names_of_sets(sets, upto - 1).contains(defs[a].name) {
                let (i, b) = choose|i: int, b: int|
                    0 <= i < upto - 1 && 0 <= b < sets[i].len() && (#[trigger] sets[i][b]).name
                        == defs[a].name;
                assert(sets[i][b].name != sets[upto - 1][a].name);
            }
        }
        lemma_add_new_fresh(before, defs);
        let added = before.add_new(defs)->Ok_0;
        let after = added.with_executor_for(declared[upto - 1], executors[upto - 1]);
        assert(state.with_tool_sets(sets, declared, executors, upto) == Some(after));
        assert(after.functions.dom() =~= state.functions.dom().union(names_of_sets(sets, upto)));
        assert((upto - 1) * k + k == upto * k) by (nonlinear_arith);
    }
}

/// A name is among the names of the first `upto` sets exactly when one of
/// their schemas carries it.
pub proof fn lemma_names_of_sets(sets: Seq<Seq<DefinitionSpec>>, upto: int, name: Seq<char>)
    requires
        0 <= upto <= sets.len(),
    ensures
        names_of_sets(sets, upto).contains(name) <==> exists|i: int, b: int|
            0 <= i < upto && 0 <= b < sets[i].len() && (#[trigger] sets[i][b]).name == name,
    decreases upto,
{
    if upto > 0 {
        lemma_names_of_sets(sets, upto - 1, name);
        let last = names_of_schemas(sets[upto - 1]);
        if names_of_sets(sets, upto).contains(name) {
            if last.contains(name) {
                let b = choose|b: int| 0 <= b < last.len() && last[b] == name;
                assert(sets[upto - 1][b].name == name);
            } else {
                let (i, b) = choose|i: int, b: int|
                    0 <= i < upto - 1 && 0 <= b < sets[i].len() && (#[trigger] sets[i][b]).name
                        == name;
                assert(sets[i][b].name == name);
            }
        }
        if exists|i: int, b: int|
            0 <= i < upto && 0 <= b < sets[i].len() && (#[trigger] sets[i][b]).name == name {
            let (i, b) = choose|i: int, b: int|
                0 <= i < upto && 0 <= b < sets[i].len() && (#[trigger] sets[i][b]).name == name;
            if i == upto - 1 {
                assert(last[b] == name);
            } else {
                assert(sets[i][b].name == name);
            }
        }
    }
}

} // verus!
