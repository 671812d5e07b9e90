//! The manager of the one registry that a host shares among its parts.
//!
//! The manager holds the registry or nothing. Its first use brings the
//! built-in tools in; after that tools can be added and taken out. The
//! host keeps the manager behind a lock: readers take copies, writers
//! change it one at a time.

use std::sync::Arc;
use vstd::prelude::*;
use crate::error::{AiError, AiResult, RegistryError};
use crate::func::builtin::{BuiltinExecutor, ToolExecutor};
use crate::func::executor::{ExecutorStep, FunctionExecutor};
use crate::func::git::{create_git_functions, git_names, git_schemas, GitFunctionExecutor};
use crate::func::registry::{
    lemma_with_bindings, lemma_with_schemas_twice, lists_schemas, with_bindings, with_schemas,
    FunctionRegistry, RegistryState,
};
use crate::func::system::fs::{create_fs_functions, fs_names, fs_schemas, FileSystemExecutor};
use crate::func::system::net::{create_net_functions, net_names, net_schemas, NetworkExecutor};
use crate::func::system::platform::Platform;
use crate::func::system::sys::{create_sys_functions, sys_names, sys_schemas, SystemInfoExecutor};
use crate::provider::{definition_views, DefinitionSpec, FunctionCall, FunctionDefinition};
use crate::text::{has_text, views};

verus! {

/// The schemas of the built-in tools, family by family.
pub open spec fn builtin_schemas() -> Seq<DefinitionSpec> {
    git_schemas() + fs_schemas() + sys_schemas() + net_schemas()
}

/// The names of the built-in tools, family by family.
pub open spec fn builtin_names() -> Seq<Seq<char>> {
    git_names() + fs_names() + sys_names() + net_names()
}

/// The built-in executor that serves a built-in name.
pub open spec fn builtin_for(name: Seq<char>) -> BuiltinExecutor {
    if net_names().contains(name) {
        BuiltinExecutor::Network(NetworkExecutor)
    } else if sys_names().contains(name) {
        BuiltinExecutor::SystemInfo(SystemInfoExecutor)
    } else if fs_names().contains(name) {
        BuiltinExecutor::FileSystem(FileSystemExecutor)
    } else {
        BuiltinExecutor::Git(GitFunctionExecutor)
    }
}

/// The state of a registry that holds the built-in tools and nothing else:
/// their schemas, and for each of their names the executor of its family.
pub open spec fn is_builtin_state<C: FunctionExecutor>(state: RegistryState<ToolExecutor<C>>)
    -> bool {
    &&& state.functions == with_schemas(Map::empty(), builtin_schemas())
    &&& forall|name: Seq<char>| #[trigger]
        state.executors.contains_key(name) <==> builtin_names().contains(name)
    &&& forall|name: Seq<char>|
        builtin_names().contains(name) ==> *(#[trigger] state.executors[name])
            == ToolExecutor::<C>::Builtin(builtin_for(name))
}

/// The first place at or after `from` whose schema the executor does not
/// declare, or the length of `defs`.
pub open spec fn first_undeclared(defs: Seq<DefinitionSpec>, declared: Seq<Seq<char>>, from: int)
    -> int
    decreases defs.len() - from,
{
    if 0 <= from < defs.len() && declared.contains(defs[from].name) {
        first_undeclared(defs, declared, from + 1)
    } else {
        from
    }
}

/// How the registration of a set of tools ends, where the executor
/// declares the names `declared`: with a contract violation for the first
/// schema that is not declared; else with the first name that is taken
/// already or occurs twice; else with the schemas registered and the
/// executor bound to every declared name. On an error nothing changes.
pub open spec fn tool_set_registered<E: FunctionExecutor>(
    before: RegistryState<E>,
    after: RegistryState<E>,
    r: AiResult<()>,
    defs: Seq<DefinitionSpec>,
    declared: Seq<Seq<char>>,
    executor: Arc<E>,
) -> bool {
    let undeclared = first_undeclared(defs, declared, 0);
    &&& r is Ok <==> before.with_tool_set(defs, declared, executor) is Some
    &&& r is Ok ==> before.with_tool_set(defs, declared, executor) == Some(after)
    &&& if undeclared < defs.len() {
        &&& after == before
        &&& r matches Err(AiError::Registry(RegistryError::ContractViolation(n)))
        &&& n@ == defs[undeclared].name
    } else {
        match before.add_new(defs) {
            Err(name) => {
                &&& after == before
                &&& r matches Err(AiError::Registry(RegistryError::AlreadyRegistered(n)))
                &&& n@ == name
            },
            Ok(added) => {
                &&& r is Ok
                &&& after == added.with_executor_for(declared, executor)
            },
        }
    }
}

/// An executor declares all of the schemas from `from` on exactly when
/// none of them is the first that it does not declare.
pub proof fn lemma_first_undeclared(defs: Seq<DefinitionSpec>, declared: Seq<Seq<char>>, from: int)
    requires
        0 <= from <= defs.len(),
    ensures
        from <= first_undeclared(defs, declared, from) <= defs.len(),
        first_undeclared(defs, declared, from) < defs.len() ==> !declared.contains(
            defs[first_undeclared(defs, declared, from)].name,
        ),
        forall|i: int|
            from <= i < first_undeclared(defs, declared, from) ==> declared.contains(
                (#[trigger] defs[i]).name,
            ),
    decreases defs.len() - from,
{
    if from < defs.len() && declared.contains(defs[from].name) {
        lemma_first_undeclared(defs, declared, from + 1);
    }
}

/// The manager of the shared registry.
pub struct GlobalFunctionRegistry<C: FunctionExecutor> {
    registry: Option<FunctionRegistry<ToolExecutor<C>>>,
}

impl<C: FunctionExecutor> GlobalFunctionRegistry<C> {
    /// What holds of every manager: its registry, if it has one, is well
    /// formed.
    pub closed spec fn wf(&self) -> bool {
        self.registry matches Some(r) ==> r.wf()
    }

    /// What the manager holds: nothing, or the state of its registry.
    pub closed spec fn state(&self) -> Option<RegistryState<ToolExecutor<C>>> {
        match self.registry {
            Some(r) => Some(r@),
            None => None,
        }
    }

    /// What the manager holds once it is in use: what it held, or the
    /// built-in tools where it held nothing.
    pub open spec fn in_use(&self, state: RegistryState<ToolExecutor<C>>) -> bool {
        match self.state() {
            Some(s) => state == s,
            None => is_builtin_state(state),
        }
    }

    /// A manager that holds nothing yet.
    pub fn new() -> (r: Self)
        ensures
            r.wf(),
            r.state() is None,
    {
        GlobalFunctionRegistry { registry: None }
    }

    /// A registry of its own with the built-in tools.
    pub fn create_test_registry() -> (r: AiResult<FunctionRegistry<ToolExecutor<C>>>)
        ensures
            r matches Ok(registry) && registry.wf() && is_builtin_state(registry@),
    {
        let mut registry: FunctionRegistry<ToolExecutor<C>> = FunctionRegistry::new();
        let ghost s0 = registry@;
        let git: Arc<ToolExecutor<C>> = Arc::new(
            ToolExecutor::Builtin(BuiltinExecutor::Git(GitFunctionExecutor)),
        );
        let _ = registry.register_functions(create_git_functions());
        let _ = registry.bind_declared(git);
        let fs: Arc<ToolExecutor<C>> = Arc::new(
            ToolExecutor::Builtin(BuiltinExecutor::FileSystem(FileSystemExecutor)),
        );
        let _ = registry.register_functions(create_fs_functions());
        let _ = registry.bind_declared(fs);
        let sys: Arc<ToolExecutor<C>> = Arc::new(
            ToolExecutor::Builtin(BuiltinExecutor::SystemInfo(SystemInfoExecutor)),
        );
        let _ = registry.register_functions(create_sys_functions());
        let _ = registry.bind_declared(sys);
        let net: Arc<ToolExecutor<C>> = Arc::new(
            ToolExecutor::Builtin(BuiltinExecutor::Network(NetworkExecutor)),
        );
        let _ = registry.register_functions(create_net_functions());
        let _ = registry.bind_declared(net);
        proof {
            let none = Map::<Seq<char>, DefinitionSpec>::empty();
            lemma_with_schemas_twice(none, git_schemas(), fs_schemas());
            lemma_with_schemas_twice(none, git_schemas() + fs_schemas(), sys_schemas());
            lemma_with_schemas_twice(
                none,
                git_schemas() + fs_schemas() + sys_schemas(),
                net_schemas(),
            );
            let e0 = Map::<Seq<char>, Arc<ToolExecutor<C>>>::empty();
            let e1 = with_bindings(e0, git_names(), git);
            let e2 = with_bindings(e1, fs_names(), fs);
            let e3 = with_bindings(e2, sys_names(), sys);
            let e4 = with_bindings(e3, net_names(), net);
            lemma_with_bindings(e0, git_names(), git);
            lemma_with_bindings(e1, fs_names(), fs);
            lemma_with_bindings(e2, sys_names(), sys);
            lemma_with_bindings(e3, net_names(), net);
            assert(registry@.executors == e4);
            assert forall|name: Seq<char>| #[trigger]
                e4.contains_key(name) <==> builtin_names().contains(name) by {
                lemma_contains_of_concat(name);
                assert(e1.contains_key(name) == git_names().contains(name));
                assert(e2.contains_key(name) == (e1.contains_key(name) || fs_names().contains(name)));
                assert(e3.contains_key(name) == (e2.contains_key(name) || sys_names().contains(name)));
            }
            assert(*git == ToolExecutor::<C>::Builtin(BuiltinExecutor::Git(GitFunctionExecutor)));
            assert(*fs == ToolExecutor::<C>::Builtin(
                BuiltinExecutor::FileSystem(FileSystemExecutor),
            ));
            assert(*sys == ToolExecutor::<C>::Builtin(
                BuiltinExecutor::SystemInfo(SystemInfoExecutor),
            ));
            assert(*net == ToolExecutor::<C>::Builtin(BuiltinExecutor::Network(NetworkExecutor)));
            assert forall|name: Seq<char>| builtin_names().contains(name) implies *(
            #[trigger] e4[name]) == ToolExecutor::<C>::Builtin(builtin_for(name)) by {
                lemma_contains_of_concat(name);
                assert(e4.contains_key(name));
                assert(e1.contains_key(name) == git_names().contains(name));
                assert(e2.contains_key(name) == (e1.contains_key(name) || fs_names().contains(name)));
                assert(e3.contains_key(name) == (e2.contains_key(name) || sys_names().contains(name)));
                if net_names().contains(name) {
                    assert(e4[name] == net);
                } else if sys_names().contains(name) {
                    assert(e4[name] == e3[name]);
                    assert(e3[name] == sys);
                } else if fs_names().contains(name) {
                    assert(e4[name] == e3[name]);
                    assert(e3[name] == e2[name]);
                    assert(e2[name] == fs);
                } else {
                    assert(e4[name] == e3[name]);
                    assert(e3[name] == e2[name]);
                    assert(e2[name] == e1[name]);
                    assert(e1[name] == git);
                }
            }
        }
        Ok(registry)
    }

    /// Brings the built-in tools in, unless the manager holds a registry
    /// already; then nothing changes.
    pub fn initialize(&mut self) -> (r: AiResult<()>)
        requires
            old(self).wf(),
        ensures
            final(self).wf(),
            r is Ok,
            final(self).state() matches Some(s) && old(self).in_use(s),
    {
        if self.registry.is_some() {
            return Ok(());
        }
        match GlobalFunctionRegistry::<C>::create_test_registry() {
            Ok(registry) => {
                self.registry = Some(registry);
                Ok(())
            },
            Err(e) => Err(e),
        }
    }

    /// Whether the manager holds a registry.
    pub fn is_initialized(&self) -> (r: bool)
        ensures
            r == self.state() is Some,
    {
        self.registry.is_some()
    }

    /// Lets go of the registry. The next use brings the built-in tools in
    /// again.
    pub fn reset(&mut self)
        ensures
            final(self).wf(),
            final(self).state() is None,
    {
        self.registry = None;
    }

    /// Lets go of the registry and brings the built-in tools in anew.
    pub fn force_reinitialize(&mut self) -> (r: AiResult<()>)
        ensures
            final(self).wf(),
            r is Ok,
            final(self).state() matches Some(s) && is_builtin_state(s),
    {
        self.reset();
        self.initialize()
    }

    /// A copy of the registry. The manager must hold one.
    pub fn get_registry(&self) -> (r: AiResult<FunctionRegistry<ToolExecutor<C>>>)
        requires
            self.wf(),
        ensures
            match self.state() {
                Some(s) => r matches Ok(copy) && copy.wf() && copy@ == s,
                None => r matches Err(AiError::Registry(RegistryError::NotInitialized)),
            },
    {
        match &self.registry {
            Some(registry) => Ok(registry.clone_registry()),
            None => Err(AiError::Registry(RegistryError::NotInitialized)),
        }
    }

    /// A copy of the registry with the entries that `tools` selects: all
    /// of them where `tools` is empty, else those whose name is in `tools`.
    pub fn get_registry_with_tools(&self, tools: &Vec<String>) -> (r: AiResult<
        FunctionRegistry<ToolExecutor<C>>,
    >)
        requires
            self.wf(),
        ensures
            match self.state() {
                Some(s) => r matches Ok(copy) && copy.wf() && copy@ == s.with_tools(views(tools@)),
                None => r matches Err(AiError::Registry(RegistryError::NotInitialized)),
            },
    {
        match &self.registry {
            Some(registry) => Ok(registry.with_tools(tools)),
            None => Err(AiError::Registry(RegistryError::NotInitialized)),
        }
    }

    /// Hands a call to the executor that is bound to its name.
    pub fn execute_function(&self, function_call: &FunctionCall, platform: &Platform) -> (r:
        AiResult<ExecutorStep>)
        requires
            self.wf(),
        ensures
            match self.state() {
                None => r matches Err(AiError::Registry(RegistryError::NotInitialized)),
                Some(s) => if s.executors.contains_key(function_call.function.name@) {
                    call_ensures(
                        ToolExecutor::<C>::begin,
                        (&*s.executors[function_call.function.name@], function_call, platform),
                        r,
                    )
                } else {
                    r matches Err(AiError::Registry(RegistryError::NotFound(n))) && n@
                        == function_call.function.name@
                },
            },
    {
        match &self.registry {
            Some(registry) => registry.execute_function(function_call, platform),
            None => Err(AiError::Registry(RegistryError::NotInitialized)),
        }
    }

    /// A copy of every schema; none where the manager holds no registry.
    pub fn clone_functions(&self) -> (out: Vec<FunctionDefinition>)
        requires
            self.wf(),
        ensures
            match self.state() {
                Some(s) => lists_schemas(definition_views(out@), s.functions),
                None => out@.len() == 0,
            },
    {
        match &self.registry {
            Some(registry) => registry.clone_functions(),
            None => Vec::new(),
        }
    }

    /// Registers a schema under a name that has none. A name that has one
    /// is refused, and its schema stays.
    pub fn register_function(&mut self, function: FunctionDefinition) -> (r: AiResult<()>)
        requires
            old(self).wf(),
        ensures
            final(self).wf(),
            final(self).state() matches Some(after) && exists|before: RegistryState<ToolExecutor<C>>|
                #![trigger old(self).in_use(before)]
                old(self).in_use(before) && if before.functions.contains_key(function.name@) {
                    &&& after == before
                    &&& r matches Err(AiError::Registry(RegistryError::AlreadyRegistered(n)))
                    &&& n@ == function.name@
                } else {
                    &&& r is Ok
                    &&& after == before.with_function(function@)
                },
    {
        let _ = self.initialize();
        let ghost before = self.state().unwrap();
        assert(old(self).in_use(before));
        match &mut self.registry {
            Some(registry) => {
                if registry.get_function(function.name.as_str()).is_some() {
                    Err(
                        AiError::Registry(
                            RegistryError::AlreadyRegistered(function.name.clone()),
                        ),
                    )
                } else {
                    registry.register_function(function)
                }
            },
            None => Err(AiError::Registry(RegistryError::NotInitialized)),
        }
    }

    /// Binds an executor to a name that it declares; the registry then
    /// holds the name, served by this executor. An executor that does not
    /// declare the name is refused.
    pub fn register_executor(&mut self, function_name: String, executor: Arc<ToolExecutor<C>>)
        -> (r: AiResult<()>)
        requires
            old(self).wf(),
        ensures
            final(self).wf(),
            r is Ok ==> (final(self).state() matches Some(after) && after.contains(function_name@)
                && after.executors.contains_key(function_name@) && after.executors[function_name@]
                == executor),
            final(self).state() matches Some(after) && exists|
                before: RegistryState<ToolExecutor<C>>,
                names: Vec<String>,
            |
                #![trigger old(self).in_use(before), call_ensures(ToolExecutor::<C>::supported_functions, (&*executor,), names)]
                old(self).in_use(before) && call_ensures(
                    ToolExecutor::<C>::supported_functions,
                    (&*executor,),
                    names,
                ) && if views(names@).contains(function_name@) {
                    &&& r is Ok
                    &&& after == before.with_executor(function_name@, executor)
                } else {
                    &&& after == before
                    &&& r matches Err(AiError::Registry(RegistryError::ContractViolation(n)))
                    &&& n@ == function_name@
                },
    {
        let _ = self.initialize();
        let ghost before = self.state().unwrap();
        assert(old(self).in_use(before));
        match &mut self.registry {
            Some(registry) => registry.register_executor(function_name, executor),
            None => Err(AiError::Registry(RegistryError::NotInitialized)),
        }
    }

    /// Registers a set of tools at once: the schemas, and the executor for
    /// every name that it declares. Either all of it is registered or
    /// nothing: a schema that the executor does not declare, a name that
    /// has a schema already, or a name that occurs twice in the set leaves
    /// the registry as it was.
    pub fn register_tool_set(&mut self, functions: Vec<FunctionDefinition>, executor: Arc<
        ToolExecutor<C>,
    >) -> (r: AiResult<()>)
        requires
            old(self).wf(),
        ensures
            final(self).wf(),
            final(self).state() matches Some(after) && exists|
                before: RegistryState<ToolExecutor<C>>,
                names: Vec<String>,
            |
                #![trigger old(self).in_use(before), call_ensures(ToolExecutor::<C>::supported_functions, (&*executor,), names)]
                old(self).in_use(before) && call_ensures(
                    ToolExecutor::<C>::supported_functions,
                    (&*executor,),
                    names,
                ) && tool_set_registered(
                    before,
                    after,
                    r,
                    definition_views(functions@),
                    views(names@),
                    executor,
                ),
    {
        let _ = self.initialize();
        let ghost before = self.state().unwrap();
        assert(old(self).in_use(before));
        let ghost defs = definition_views(functions@);
        let declared = executor.supported_functions();
        proof {
            lemma_first_undeclared(defs, views(declared@), 0);
        }
        let mut i: usize = 0;
        while i < functions.len()
            invariant
                0 <= i <= functions@.len(),
                defs == definition_views(functions@),
                call_ensures(ToolExecutor::<C>::supported_functions, (&*executor,), declared),
                self.wf(),
                self.state() == Some(before),
                old(self).in_use(before),
                first_undeclared(defs, views(declared@), i as int) == first_undeclared(
                    defs,
                    views(declared@),
                    0,
                ),
            decreases functions@.len() - i,
        {
            if !has_text(&declared, functions[i].name.as_str()) {
                return Err(
                    AiError::Registry(RegistryError::ContractViolation(functions[i].name.clone())),
                );
            }
            i += 1;
        }
        match &self.registry {
            Some(registry) => {
                let mut scratch = registry.clone_registry();
                match scratch.register_new_functions(&functions) {
                    Some(name) => Err(AiError::Registry(RegistryError::AlreadyRegistered(name))),
                    None => {
                        scratch.bind_names(&declared, executor);
                        self.registry = Some(scratch);
                        Ok(())
                    },
                }
            },
            None => Err(AiError::Registry(RegistryError::NotInitialized)),
        }
    }

    /// Takes the schema and the executor of a name out.
    pub fn unregister_function(&mut self, function_name: &str) -> (r: AiResult<()>)
        requires
            old(self).wf(),
        ensures
            final(self).wf(),
            r is Ok,
            final(self).state() matches Some(after) && exists|before: RegistryState<ToolExecutor<C>>|
                #![trigger old(self).in_use(before)]
                old(self).in_use(before) && after == before.without(function_name@),
    {
        let _ = self.initialize();
        let ghost before = self.state().unwrap();
        assert(old(self).in_use(before));
        match &mut self.registry {
            Some(registry) => {
                let _ = registry.unregister_function(function_name);
                Ok(())
            },
            None => Err(AiError::Registry(RegistryError::NotInitialized)),
        }
    }
}

/// A name is among the built-in names exactly when it is among the names
/// of one of the four families.
pub proof fn lemma_contains_of_concat(name: Seq<char>)
    ensures
        builtin_names().contains(name) <==> (git_names().contains(name) || fs_names().contains(name)
            || sys_names().contains(name) || net_names().contains(name)),
{
    let all = builtin_names();
    let g = git_names();
    let f = fs_names();
    let s = sys_names();
    let n = net_names();
    if all.contains(name) {
        let i = choose|i: int| 0 <= i < all.len() && all[i] == name;
        if i < g.len() {
            assert(g[i] == name);
        } else if i < g.len() + f.len() {
            assert(f[i - g.len()] == name);
        } else if i < g.len() + f.len() + s.len() {
            assert(s[i - g.len() - f.len()] == name);
        } else {
            assert(n[i - g.len() - f.len() - s.len()] == name);
        }
    }
    if g.contains(name) {
        let i = choose|i: int| 0 <= i < g.len() && g[i] == name;
        assert(all[i] == name);
    }
    if f.contains(name) {
        let i = choose|i: int| 0 <= i < f.len() && f[i] == name;
        assert(all[g.len() + i] == name);
    }
    if s.contains(name) {
        let i = choose|i: int| 0 <= i < s.len() && s[i] == name;
        assert(all[g.len() + f.len() + i] == name);
    }
    if n.contains(name) {
        let i = choose|i: int| 0 <= i < n.len() && n[i] == name;
        assert(all[g.len() + f.len() + s.len() + i] == name);
    }
}

} // verus!
