pub mod roles;
pub mod structures;
pub mod traits;

pub use self::roles::{RoleConfig, RoleConfigManager, RulesConfig};
pub use self::structures::{
    AiConfig, FileConfig, ModelAlias, ProviderConfig, ProviderTable, RoutingRules, ThreadConfig,
    UsageLimits,
};
pub use self::traits::ConfigExt;
