//! Program categories.
use vstd::prelude::*;
use crate::text::{lowercase, owned, push_str, str_eq, to_lowercase};

verus! {

/// Categories for grouping programs.
#[derive(Debug, Clone, Copy, PartialEq, Eq, Hash, Structural)]
pub enum Category {
    /// Ethereum consensus and execution clients
    Ethereum,
    /// Container orchestration and cloud tools
    DevOps,
    /// System utilities and logs
    System,
    /// Development tools and build systems
    Dev,
    /// Network diagnostics and servers
    Network,
    /// Database systems
    Data,
    /// Observability and metrics
    Monitoring,
    /// Message queues and event streaming
    Messaging,
    /// Continuous integration pipelines
    CI,
    /// User-defined custom programs
    Custom,
}

/// The identifier of a category, as used in program IDs.
pub open spec fn category_id(c: Category) -> Seq<char> {
    match c {
        Category::Ethereum => "ethereum"@,
        Category::DevOps => "devops"@,
        Category::System => "system"@,
        Category::Dev => "dev"@,
        Category::Network => "network"@,
        Category::Data => "data"@,
        Category::Monitoring => "monitoring"@,
        Category::Messaging => "messaging"@,
        Category::CI => "ci"@,
        Category::Custom => "custom"@,
    }
}

/// The category whose identifier is `l`, if any.
pub open spec fn category_from_id(l: Seq<char>) -> Option<Category> {
    if l == "ethereum"@ {
        Some(Category::Ethereum)
    } else if l == "devops"@ {
        Some(Category::DevOps)
    } else if l == "system"@ {
        Some(Category::System)
    } else if l == "dev"@ {
        Some(Category::Dev)
    } else if l == "network"@ {
        Some(Category::Network)
    } else if l == "data"@ {
        Some(Category::Data)
    } else if l == "monitoring"@ {
        Some(Category::Monitoring)
    } else if l == "messaging"@ {
        Some(Category::Messaging)
    } else if l == "ci"@ {
        Some(Category::CI)
    } else if l == "custom"@ {
        Some(Category::Custom)
    } else {
        None
    }
}

/// All categories, in declaration order.
pub open spec fn all_categories() -> Seq<Category> {
    seq![
        Category::Ethereum,
        Category::DevOps,
        Category::System,
        Category::Dev,
        Category::Network,
        Category::Data,
        Category::Monitoring,
        Category::Messaging,
        Category::CI,
        Category::Custom,
    ]
}

/// The list of valid category identifiers, separated by `", "`.
pub open spec fn valid_category_list() -> Seq<char> {
    "ethereum, devops, system, dev, network, data, monitoring, messaging, ci, custom"@
}

/// The display name of a category.
pub open spec fn display_name_spec(c: Category) -> Seq<char> {
    match c {
        Category::Ethereum => "Ethereum"@,
        Category::DevOps => "DevOps"@,
        Category::System => "System"@,
        Category::Dev => "Development"@,
        Category::Network => "Network"@,
        Category::Data => "Data"@,
        Category::Monitoring => "Monitoring"@,
        Category::Messaging => "Messaging"@,
        Category::CI => "CI/CD"@,
        Category::Custom => "Custom"@,
    }
}

impl Category {
    /// Returns the string representation used in program IDs.
    pub fn as_str(&self) -> (r: &'static str)
        ensures
            r@ == category_id(*self),
    {
        match self {
            Category::Ethereum => "ethereum",
            Category::DevOps => "devops",
            Category::System => "system",
            Category::Dev => "dev",
            Category::Network => "network",
            Category::Data => "data",
            Category::Monitoring => "monitoring",
            Category::Messaging => "messaging",
            Category::CI => "ci",
            Category::Custom => "custom",
        }
    }

    /// Returns a human-readable description of the category.
    pub fn description(&self) -> (r: &'static str)
        ensures
            r@ == match *self {
                Category::Ethereum => "Ethereum consensus and execution clients"@,
                Category::DevOps => "Container orchestration and cloud tools"@,
                Category::System => "System utilities and logs"@,
                Category::Dev => "Development tools and build systems"@,
                Category::Network => "Network diagnostics and servers"@,
                Category::Data => "Database systems"@,
                Category::Monitoring => "Observability and metrics"@,
                Category::Messaging => "Message queues and event streaming"@,
                Category::CI => "Continuous integration pipelines"@,
                Category::Custom => "User-defined custom programs"@,
            },
    {
        match self {
            Category::Ethereum => "Ethereum consensus and execution clients",
            Category::DevOps => "Container orchestration and cloud tools",
            Category::System => "System utilities and logs",
            Category::Dev => "Development tools and build systems",
            Category::Network => "Network diagnostics and servers",
            Category::Data => "Database systems",
            Category::Monitoring => "Observability and metrics",
            Category::Messaging => "Message queues and event streaming",
            Category::CI => "Continuous integration pipelines",
            Category::Custom => "User-defined custom programs",
        }
    }

    /// Returns a display name for the category.
    pub fn display_name(&self) -> (r: &'static str)
        ensures
            r@ == display_name_spec(*self),
    {
        match self {
            Category::Ethereum => "Ethereum",
            Category::DevOps => "DevOps",
            Category::System => "System",
            Category::Dev => "Development",
            Category::Network => "Network",
            Category::Data => "Data",
            Category::Monitoring => "Monitoring",
            Category::Messaging => "Messaging",
            Category::CI => "CI/CD",
            Category::Custom => "Custom",
        }
    }

    /// Returns all category variants.
    pub fn all() -> (r: Vec<Category>)
        ensures
            r@ == all_categories(),
    {
        let r = vec![
            Category::Ethereum,
            Category::DevOps,
            Category::System,
            Category::Dev,
            Category::Network,
            Category::Data,
            Category::Monitoring,
            Category::Messaging,
            Category::CI,
            Category::Custom,
        ];
        assert(r@ =~= all_categories());
        r
    }

    /// The text that `Display` gives: the category's identifier.
    pub fn to_string(&self) -> (r: String)
        ensures
            r@ == category_id(*self),
    {
        owned(self.as_str())
    }

    /// The category whose identifier is exactly `l` (already lower-cased).
    pub fn from_id(l: &str) -> (r: Option<Category>)
        ensures
            r == category_from_id(l@),
    {
        if str_eq(l, "ethereum") {
            Some(Category::Ethereum)
        } else if str_eq(l, "devops") {
            Some(Category::DevOps)
        } else if str_eq(l, "system") {
            Some(Category::System)
        } else if str_eq(l, "dev") {
            Some(Category::Dev)
        } else if str_eq(l, "network") {
            Some(Category::Network)
        } else if str_eq(l, "data") {
            Some(Category::Data)
        } else if str_eq(l, "monitoring") {
            Some(Category::Monitoring)
        } else if str_eq(l, "messaging") {
            Some(Category::Messaging)
        } else if str_eq(l, "ci") {
            Some(Category::CI)
        } else if str_eq(l, "custom") {
            Some(Category::Custom)
        } else {
            None
        }
    }

    /// Parses a category name, ignoring case.
    pub fn parse(s: &str) -> (r: Result<Category, ParseCategoryError>)
        ensures
            match r {
                Ok(c) => category_from_id(lowercase(s@)) == Some(c),
                Err(e) => category_from_id(lowercase(s@)) is None && e.0@ == s@,
            },
    {
        let l = to_lowercase(s);
        match Category::from_id(l.as_str()) {
            Some(c) => Ok(c),
            None => Err(ParseCategoryError(owned(s))),
        }
    }
}

impl std::str::FromStr for Category {
    type Err = ParseCategoryError;

    fn from_str(s: &str) -> (r: Result<Self, Self::Err>)
        ensures
            match category_from_id(lowercase(s@)) {
                Some(c) => r == Ok::<Category, ParseCategoryError>(c),
                None => r matches Err(e) && e.0@ == s@,
            },
    {
        Category::parse(s)
    }
}

/// The message of a category parse error for a text.
pub open spec fn parse_category_error_message(t: Seq<char>) -> Seq<char> {
    "unknown category '"@ + t + "'. Valid categories: "@ + valid_category_list()
}

/// Error type for parsing a category from a string.
#[derive(Debug, Clone, PartialEq, Eq)]
pub struct ParseCategoryError(pub String);

impl ParseCategoryError {
    /// The message that `Display` gives for this error.
    pub fn to_string(&self) -> (r: String)
        ensures
            r@ == parse_category_error_message(self.0@),
    {
        let mut r = owned("unknown category '");
        push_str(&mut r, self.0.as_str());
        push_str(&mut r, "'. Valid categories: ");
        push_str(&mut r, "ethereum, devops, system, dev, network, data, monitoring, messaging, ci, custom");
        r
    }
}

/// A category's ID names it: reading back the ID of a category gives the
/// category.
pub proof fn law_category_id_roundtrip(c: Category)
    ensures
        category_from_id(category_id(c)) == Some(c),
{
    reveal_strlit("ethereum");
    reveal_strlit("devops");
    reveal_strlit("system");
    reveal_strlit("dev");
    reveal_strlit("network");
    reveal_strlit("data");
    reveal_strlit("monitoring");
    reveal_strlit("messaging");
    reveal_strlit("ci");
    reveal_strlit("custom");
    assert("ethereum"@.len() == 8 && "devops"@.len() == 6 && "system"@.len() == 6 && "dev"@.len() == 3);
    assert("network"@.len() == 7 && "data"@.len() == 4 && "monitoring"@.len() == 10 && "messaging"@.len() == 9);
    assert("ci"@.len() == 2 && "custom"@.len() == 6);
    assert("devops"@[0] != "system"@[0] && "system"@[0] != "custom"@[0] && "devops"@[0] != "custom"@[0]);
}

} // verus!
