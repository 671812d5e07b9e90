//! Roles: who the model is asked to be, and the rules it is given.

use vstd::prelude::*;
use crate::name_map::NameMap;
use crate::roleid::AiRoleID;
use crate::text::{is_blank, lines, option_view, split_lines, trim, trimmed, views};

verus! {

/// One role.
#[derive(Debug, Clone, PartialEq)]
pub struct RoleConfig {
    name: String,
    description: String,
    system_prompt: String,
    used_model: Option<String>,
    rules_path: Option<String>,
}

/// The mathematical form of a [`RoleConfig`].
pub struct RoleSpec {
    pub name: Seq<char>,
    pub description: Seq<char>,
    pub system_prompt: Seq<char>,
    pub used_model: Option<Seq<char>>,
    pub rules_path: Option<Seq<char>>,
}

impl View for RoleConfig {
    type V = RoleSpec;

    closed spec fn view(&self) -> RoleSpec {
        RoleSpec {
            name: self.name@,
            description: self.description@,
            system_prompt: self.system_prompt@,
            used_model: option_view(self.used_model),
            rules_path: option_view(self.rules_path),
        }
    }
}

/// A role that names no model and whose rules lie under `rules_path`.
pub open spec fn sample_role(
    name: Seq<char>,
    description: Seq<char>,
    system_prompt: Seq<char>,
    rules_path: Seq<char>,
) -> RoleSpec {
    RoleSpec { name, description, system_prompt, used_model: None, rules_path: Some(rules_path) }
}

/// The role of a developer.
pub open spec fn developer_role() -> RoleSpec {
    sample_role(
        "developer"@,
        "专注于代码开发的技术专家"@,
        "你是一个专业的开发者，擅长高质量的代码实现、系统设计和技术问题解决。"@,
        "ai-rules/developer"@,
    )
}

/// The role of an operator.
pub open spec fn operations_role() -> RoleSpec {
    sample_role(
        "operations"@,
        "专注于系统运维的专家"@,
        "你是一个专业的运维专家，擅长诊断系统问题、和解决问题。"@,
        "ai-rules/operations"@,
    )
}

/// The role that knows the Galaxy tools.
pub open spec fn galactiward_role() -> RoleSpec {
    sample_role(
        "galactiward"@,
        "专注于Galaxy生态专家"@,
        "通过Galaxy资料，解决Galaxy问题"@,
        "ai-rules/galactiward"@,
    )
}

/// Whether `roles` holds the three sample roles, each under its name,
/// and nothing else.
pub open spec fn are_sample_roles(roles: NameMap<RoleConfig>) -> bool {
    &&& roles.wf()
    &&& roles.order() == seq!["developer"@, "operations"@, "galactiward"@]
    &&& roles@.dom() == set!["developer"@, "operations"@, "galactiward"@]
    &&& roles@["developer"@]@ == developer_role()
    &&& roles@["operations"@]@ == operations_role()
    &&& roles@["galactiward"@]@ == galactiward_role()
}

impl RoleConfig {
    /// A role.
    pub fn new(
        name: &str,
        description: &str,
        system_prompt: &str,
        used_model: Option<String>,
        rules_path: Option<String>,
    ) -> (r: Self)
        ensures
            r@ == (RoleSpec {
                name: name@,
                description: description@,
                system_prompt: system_prompt@,
                used_model: option_view(used_model),
                rules_path: option_view(rules_path),
            }),
    {
        RoleConfig {
            name: name.to_owned(),
            description: description.to_owned(),
            system_prompt: system_prompt.to_owned(),
            used_model,
            rules_path,
        }
    }

    /// The name of the role.
    pub fn name(&self) -> (r: &String)
        ensures
            r@ == self@.name,
    {
        &self.name
    }

    /// What the role is for.
    pub fn description(&self) -> (r: &String)
        ensures
            r@ == self@.description,
    {
        &self.description
    }

    /// What the model is told at the start of a conversation.
    pub fn system_prompt(&self) -> (r: &String)
        ensures
            r@ == self@.system_prompt,
    {
        &self.system_prompt
    }

    /// The model that the role asks for, if it asks for one.
    pub fn used_model(&self) -> (r: &Option<String>)
        ensures
            option_view(*r) == self@.used_model,
    {
        &self.used_model
    }

    /// Where the rules of the role lie, if it has rules.
    pub fn rules_path(&self) -> (r: &Option<String>)
        ensures
            option_view(*r) == self@.rules_path,
    {
        &self.rules_path
    }

    /// The three sample roles: developer, operations and galactiward.
    pub fn example_roles() -> (roles: NameMap<RoleConfig>)
        ensures
            are_sample_roles(roles),
    {
        let mut roles: NameMap<RoleConfig> = NameMap::new();
        roles.insert(
            "developer".to_string(),
            RoleConfig::new(
                "developer",
                "专注于代码开发的技术专家",
                "你是一个专业的开发者，擅长高质量的代码实现、系统设计和技术问题解决。",
                None,
                Some("ai-rules/developer".to_string()),
            ),
        );
        roles.insert(
            "operations".to_string(),
            RoleConfig::new(
                "operations",
                "专注于系统运维的专家",
                "你是一个专业的运维专家，擅长诊断系统问题、和解决问题。",
                None,
                Some("ai-rules/operations".to_string()),
            ),
        );
        roles.insert(
            "galactiward".to_string(),
            RoleConfig::new(
                "galactiward",
                "专注于Galaxy生态专家",
                "通过Galaxy资料，解决Galaxy问题",
                None,
                Some("ai-rules/galactiward".to_string()),
            ),
        );
        proof {
            reveal_strlit("developer");
            reveal_strlit("operations");
            reveal_strlit("galactiward");
            assert("developer"@.len() == 9);
            assert("operations"@.len() == 10);
            assert("galactiward"@.len() == 11);
            assert(roles.order() =~= seq!["developer"@, "operations"@, "galactiward"@]);
            assert(roles@.dom() =~= set!["developer"@, "operations"@, "galactiward"@]);
        }
        roles
    }
}

/// The rules that a role is given.
#[derive(Debug, Clone, PartialEq)]
pub struct RulesConfig {
    pub rules: Vec<String>,
}

/// The lines from `from` on, each without the blanks at its ends, the
/// empty ones left out.
pub open spec fn rules_from(all: Seq<Seq<char>>, from: int) -> Seq<Seq<char>>
    decreases all.len() - from,
{
    if from < 0 || from >= all.len() {
        Seq::empty()
    } else if is_blank(all[from]) {
        rules_from(all, from + 1)
    } else {
        seq![trimmed(all[from])] + rules_from(all, from + 1)
    }
}

/// The rules that a text holds: its lines without the blanks at their
/// ends, the empty ones left out.
pub open spec fn rules_of(content: Seq<char>) -> Seq<Seq<char>> {
    rules_from(lines(content), 0)
}

impl RulesConfig {
    /// The rules that the text of a file holds, one on each line.
    pub fn from_text(content: &str) -> (r: Self)
        ensures
            views(r.rules@) == rules_of(content@),
    {
        let all = split_lines(content);
        let ghost texts = views(all@);
        let mut rules: Vec<String> = Vec::new();
        let mut i: usize = 0;
        while i < all.len()
            invariant
                0 <= i <= all@.len(),
                texts == views(all@),
                texts == lines(content@),
                views(rules@) + rules_from(texts, i as int) == rules_from(texts, 0),
            decreases all@.len() - i,
        {
            let ghost before = views(rules@);
            let line = trim(all[i].as_str());
            assert(texts[i as int] == all@[i as int]@);
            proof {
                crate::text::lemma_blank_iff_trimmed_empty(texts[i as int]);
            }
            if !line.as_str().is_empty() {
                rules.push(line);
                assert(views(rules@) =~= before + seq![trimmed(texts[i as int])]);
                assert(views(rules@) + rules_from(texts, i + 1) =~= before + rules_from(
                    texts,
                    i as int,
                ));
            }
            i += 1;
        }
        assert(views(rules@) =~= views(rules@) + rules_from(texts, i as int));
        RulesConfig { rules }
    }

    /// The rules of several files, in the order of the files.
    pub fn from_texts(contents: &Vec<String>) -> (r: Self)
        ensures
            views(r.rules@) == rules_of_all(views(contents@), contents@.len() as int),
    {
        let mut rules: Vec<String> = Vec::new();
        let mut i: usize = 0;
        while i < contents.len()
            invariant
                0 <= i <= contents@.len(),
                views(rules@) == rules_of_all(views(contents@), i as int),
            decreases contents@.len() - i,
        {
            let ghost before = views(rules@);
            let mut more = RulesConfig::from_text(contents[i].as_str());
            let ghost added = views(more.rules@);
            assert(views(contents@)[i as int] == contents@[i as int]@);
            rules.append(&mut more.rules);
            assert(views(rules@) =~= before + added);
            i += 1;
        }
        RulesConfig { rules }
    }
}

/// The rules of the first `n` texts, in the order of the texts.
pub open spec fn rules_of_all(contents: Seq<Seq<char>>, n: int) -> Seq<Seq<char>>
    decreases n,
{
    if n <= 0 || n > contents.len() {
        Seq::empty()
    } else {
        rules_of_all(contents, n - 1) + rules_of(contents[n - 1])
    }
}

/// The roles that are known, and what is used where a request names
/// neither role nor model.
#[derive(Debug)]
pub struct RoleConfigManager {
    default_role: AiRoleID,
    default_model: String,
    roles: NameMap<RoleConfig>,
}

impl RoleConfigManager {
    /// No role is there under two names.
    pub closed spec fn wf(&self) -> bool {
        self.roles.wf()
    }

    /// The roles by their names.
    pub closed spec fn role_map(&self) -> Map<Seq<char>, RoleConfig> {
        self.roles@
    }

    /// The names of the roles in the order in which they were added.
    pub closed spec fn role_names(&self) -> Seq<Seq<char>> {
        self.roles.order()
    }

    /// The role that is used where a request names none.
    pub closed spec fn default_role_text(&self) -> Seq<char> {
        self.default_role@
    }

    /// The model that is used where a role names none.
    pub closed spec fn default_model_text(&self) -> Seq<char> {
        self.default_model@
    }

    /// A manager of the given roles.
    pub fn new(default_role: AiRoleID, default_model: String, roles: NameMap<RoleConfig>) -> (r:
        Self)
        requires
            roles.wf(),
        ensures
            r.wf(),
            r.role_map() == roles@,
            r.role_names() == roles.order(),
            r.default_role_text() == default_role@,
            r.default_model_text() == default_model@,
    {
        RoleConfigManager { default_role, default_model, roles }
    }

    /// The role that is used where a request names none.
    pub fn default_role(&self) -> (r: &AiRoleID)
        ensures
            r@ == self.default_role_text(),
    {
        &self.default_role
    }

    /// The model that is used where a role names none.
    pub fn default_model(&self) -> (r: &String)
        ensures
            r@ == self.default_model_text(),
    {
        &self.default_model
    }

    /// The roles by their names.
    pub fn roles(&self) -> (r: &NameMap<RoleConfig>)
        ensures
            r@ == self.role_map(),
            r.order() == self.role_names(),
            r.wf() == self.wf(),
    {
        &self.roles
    }

    /// The role under `role_key`.
    pub fn get_role_config(&self, role_key: &str) -> (r: Option<&RoleConfig>)
        requires
            self.wf(),
        ensures
            r is Some <==> self.role_map().contains_key(role_key@),
            r matches Some(role) ==> *role == self.role_map()[role_key@],
    {
        self.roles.get(role_key)
    }

    /// The names of the roles, each once.
    pub fn get_available_roles(&self) -> (names: Vec<String>)
        ensures
            views(names@) == self.role_names(),
    {
        self.roles.names()
    }

    /// Whether there is a role under `role_key`.
    pub fn role_exists(&self, role_key: &str) -> (r: bool)
        ensures
            r == self.role_map().contains_key(role_key@),
    {
        self.roles.contains(role_key)
    }
}

impl Default for RoleConfigManager {
    /// The sample roles, `galactiward` where no role is named, and
    /// `deepseek-chat` where no model is.
    fn default() -> (r: Self)
        ensures
            r.wf(),
            r.default_role_text() == "galactiward"@,
            r.default_model_text() == "deepseek-chat"@,
            r.role_names() == seq!["developer"@, "operations"@, "galactiward"@],
            r.role_map().dom() == set!["developer"@, "operations"@, "galactiward"@],
            r.role_map()["developer"@]@ == developer_role(),
            r.role_map()["operations"@]@ == operations_role(),
            r.role_map()["galactiward"@]@ == galactiward_role(),
    {
        RoleConfigManager {
            default_role: AiRoleID::new("galactiward"),
            default_model: "deepseek-chat".to_string(),
            roles: RoleConfig::example_roles(),
        }
    }
}

} // verus!
