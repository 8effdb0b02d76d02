//! Errors raised by the library: a kind and an optional detail message.
use vstd::prelude::*;
use crate::text::{push_decimal, decimal};

verus! {

/// What went wrong.
#[derive(Debug)]
pub enum Kind {
    ChangeNotFound,
    PhaseNotFound,
    PhaseFailed(i32),
    LocalPhasesNotFound,
    AuthenticationFailed,
    ForbiddenRequest,
    InternalServerError,
    EndpointNotFound,
    NoMatchingCommand,
    ClapArgAliasOverlap,
    NotOnABranch,
    CannotReviewSameBranch,
    FailedToExecute,
    PushFailed,
    BadGitOutputMatch,
    MissingMetadataVersion,
    BadMetadataVersionMatch,
    NoGitConfig,
    NoDeliveryConfig,
    NoBitbucketSCPConfig,
    NoGithubSCPConfig,
    ProjectSCPNameMismatch,
    OptionConstraint,
    UnknownProjectType,
    ProjectNotFound(String),
    UserNotFound(String),
    GitFailed,
    UnauthorizedAction,
    MissingSshPubKey,
    EmptyGitCommit,
    GitSetupFailed,
    ConfigParse,
    DeliveryConfigParse,
    MissingConfig,
    MissingConfigFile,
    ConfigValidation,
    IoError,
    JsonError,
    JsonEncode,
    NoBuildCookbook,
    NoHomedir,
    ExpectedJsonString,
    BerksFailed,
    NoValidBuildCookbook,
    CopyFailed,
    MissingBuildCookbookName,
    SupermarketFailed,
    MoveFailed,
    RemoveFailed,
    CloneFailed,
    TarFailed,
    MissingBuildCookbookField,
    ChefServerFailed,
    ChefdkGenerateFailed,
    ChownFailed,
    ChefFailed,
    ChmodFailed,
    UnsupportedHttpMethod,
    HttpError,
    UnsupportedProtocol,
    ApiError(u16, Result<String, String>),
    JsonParseError,
    TomlDecodeError,
    IntParseError,
    OpenFailed,
    NoToken,
    TokenExpired,
    NoEditor,
    MissingProjectConfig,
    MissingRequiredConfigOption,
    FipsNotSupportedForChefDKPlatform,
    AutomateNginxCertFetchFailed,
    FromUtf8Error,
    BranchNotFoundOnDeliveryRemote,
}

/// An error: its kind and an optional detail for the user.
#[derive(Debug)]
pub struct DeliveryError {
    pub kind: Kind,
    pub detail: Option<String>,
}

/// The result of a fallible library operation.
pub type DeliveryResult<T> = Result<T, DeliveryError>;

/// The view of an optional string.
pub open spec fn opt_view(o: Option<String>) -> Option<Seq<char>> {
    match o {
        Some(s) => Some(s@),
        None => None,
    }
}

/// An owned copy of an optional string.
pub fn clone_opt(o: &Option<String>) -> (r: Option<String>)
    ensures
        opt_view(r) == opt_view(*o),
{
    match o {
        Some(s) => Some(s.clone()),
        None => None,
    }
}

/// `r` is an error of kind `MissingConfig` whose detail is `msg`.
pub open spec fn missing<T>(r: DeliveryResult<T>, msg: Seq<char>) -> bool {
    r matches Err(e) && e.kind is MissingConfig && opt_view(e.detail) == Some(msg)
}

/// `r` failed with an error of kind `k` whose detail is `msg`.
pub open spec fn fails_with<T>(r: DeliveryResult<T>, k: Kind, msg: Seq<char>) -> bool {
    r matches Err(e) && e.kind == k && opt_view(e.detail) == Some(msg)
}

/// `r` succeeded with the string `v`.
pub open spec fn ok_with(r: DeliveryResult<String>, v: Seq<char>) -> bool {
    r matches Ok(x) && x@ == v
}

/// `r` is the outcome `o`: a string on success, a missing configuration
/// value (with its message) on failure.
pub open spec fn outcome(r: DeliveryResult<String>, o: Result<Seq<char>, Seq<char>>) -> bool {
    match o {
        Ok(v) => ok_with(r, v),
        Err(m) => missing(r, m),
    }
}

/// The fixed description of each kind of error.
pub open spec fn kind_description(k: Kind) -> Seq<char> {
    match k {
        Kind::ChangeNotFound => "GET failed for specific change"@,
        Kind::PhaseNotFound => "Phase not implemented"@,
        Kind::PhaseFailed(_) => "Phase failed!"@,
        Kind::LocalPhasesNotFound => "LocalPhases tag not found"@,
        Kind::AuthenticationFailed => "401: Authentication failed"@,
        Kind::ForbiddenRequest => "403: Unauthorized request"@,
        Kind::InternalServerError => "500: There was an internal error on the server.\nCheck the logs on the Automate server."@,
        Kind::EndpointNotFound => "404: Endpoint not found!"@,
        Kind::NoMatchingCommand => "No command matches your arguments - likely unimplemented feature"@,
        Kind::ClapArgAliasOverlap => "There was an argument/alias overlap."@,
        Kind::NotOnABranch => "You must be on a branch"@,
        Kind::CannotReviewSameBranch => "You cannot target code for review from the same branch as the review is targeted for"@,
        Kind::FailedToExecute => "Tried to fork a process, and failed"@,
        Kind::PushFailed => "Git Push failed!"@,
        Kind::BadGitOutputMatch => "A line of git porcelain did not match!"@,
        Kind::MissingMetadataVersion => "Missing a version entry into the metadata.rb"@,
        Kind::BadMetadataVersionMatch => "Metadata version mismatch!"@,
        Kind::NoGitConfig => "Cannot find a .git/config file. Run 'git init' in your project root to initialize it."@,
        Kind::NoDeliveryConfig => "Cannot find a .delivery/config.json file."@,
        Kind::NoBitbucketSCPConfig => "Bitbucket Source Code Provider configuration not found; a Delivery administrator must first configure the link with Bitbucket"@,
        Kind::NoGithubSCPConfig => "Github Source Code Provider configuration not found; a Delivery administrator must first configure the link with Github"@,
        Kind::ProjectSCPNameMismatch => "Project and repository name mismatch."@,
        Kind::OptionConstraint => "Invalid option constraint"@,
        Kind::UnknownProjectType => "Unknown Project Type"@,
        Kind::ProjectNotFound(_) => "Project Not Found!"@,
        Kind::UserNotFound(_) => "User Not Found!"@,
        Kind::GitFailed => "Git command failed!"@,
        Kind::UnauthorizedAction => "You are not authorized to perform this action."@,
        Kind::MissingSshPubKey => "Missing SSH public key on the server side."@,
        Kind::EmptyGitCommit => "Nothing to commit, working directory clean"@,
        Kind::GitSetupFailed => "Setup failed; you have already set up delivery."@,
        Kind::ConfigParse => "Failed to parse the cli config file"@,
        Kind::DeliveryConfigParse => "Unable to parse the config.json file."@,
        Kind::MissingConfig => "A configuration value is missing"@,
        Kind::MissingConfigFile => "Could not find the configuration file."@,
        Kind::ConfigValidation => "A required option is missing - use the command line options or 'delivery setup'"@,
        Kind::IoError => "An I/O Error occurred"@,
        Kind::JsonError => "A JSON Parser error occurred"@,
        Kind::JsonEncode => "A JSON Encoding error occurred"@,
        Kind::NoBuildCookbook => "No valid build_cookbook entry in .delivery/config.json"@,
        Kind::NoHomedir => "Cannot find a homedir"@,
        Kind::ExpectedJsonString => "Expected a JSON string"@,
        Kind::BerksFailed => "Berkshelf command failed"@,
        Kind::NoValidBuildCookbook => "Cannot find a valid build_cookbook entry in .delivery/config.json"@,
        Kind::CopyFailed => "Failed to copy files"@,
        Kind::MissingBuildCookbookName => "You must have a name field in you build_cookbook"@,
        Kind::SupermarketFailed => "Failed to download a cookbook from the supermarket"@,
        Kind::MoveFailed => "Cannot move a file"@,
        Kind::RemoveFailed => "Cannot remove a file or directory"@,
        Kind::CloneFailed => "Unable to clone project."@,
        Kind::TarFailed => "Cannot untar a file"@,
        Kind::MissingBuildCookbookField => "Missing a required field in your build_cookbook"@,
        Kind::ChefServerFailed => "Failed to download a cookbook from the Chef Server"@,
        Kind::ChefdkGenerateFailed => "Failed to execute 'chef generate'"@,
        Kind::ChownFailed => "Cannot set ownership to the dbuild user and group"@,
        Kind::ChefFailed => "Chef Client failed"@,
        Kind::ChmodFailed => "Cannot set permissions"@,
        Kind::UnsupportedHttpMethod => "Unsupported HTTP method"@,
        Kind::HttpError => "An HTTP Error occurred"@,
        Kind::UnsupportedProtocol => "Unsupported protocol"@,
        Kind::ApiError(_, _) => "An API Error occurred"@,
        Kind::JsonParseError => "Attempted to parse invalid JSON"@,
        Kind::TomlDecodeError => "Attempted to decode invalid TOML"@,
        Kind::IntParseError => "Attempted to parse invalid Int"@,
        Kind::OpenFailed => "Open command failed"@,
        Kind::NoToken => "Missing API token. Try `delivery token` to create one"@,
        Kind::TokenExpired => "The API token has expired. Try `delivery token` to generate a new one"@,
        Kind::NoEditor => "Environment variable EDITOR not set"@,
        Kind::MissingProjectConfig => "Unable to find .delivery/config.json in this directory or its parents"@,
        Kind::MissingRequiredConfigOption => "A required config option was not set. Please specify in your cli.toml."@,
        Kind::FipsNotSupportedForChefDKPlatform => "The ChefDK for your platform does not support FIPS mode.\nRHEL and Windows are the currently supported FIPS platforms for ChefDK."@,
        Kind::AutomateNginxCertFetchFailed => "Fetching the Automate certificate failed. The automate certificate is required for FIPS mode. Please make sure you can connect to your Automate server."@,
        Kind::FromUtf8Error => "Failed to convert bytes from Utf8 into a string."@,
        Kind::BranchNotFoundOnDeliveryRemote => "Could not find specified branch on the delivery remote."@,
    }
}

/// Decimal notation of a signed exit code.
pub open spec fn signed_decimal(n: i32) -> Seq<char> {
    if n < 0 {
        seq!['-'] + decimal((-(n as int)) as nat)
    } else {
        decimal(n as nat)
    }
}

/// The message shown to the user for an error kind.
pub open spec fn kind_message(k: Kind) -> Seq<char> {
    match k {
        Kind::PhaseFailed(c) => "Phase failed with exit code ("@ + signed_decimal(c) + ")!"@,
        Kind::ProjectNotFound(p) => "The project '"@ + p@ + "' was not found."@,
        Kind::UserNotFound(u) => "The user '"@ + u@ + "' was not found."@,
        _ => kind_description(k),
    }
}

impl DeliveryError {
    /// Creates an error of the given kind with an optional detail.
    pub fn throw(kind: Kind, detail: Option<String>) -> (e: DeliveryError)
        ensures
            e.kind == kind,
            e.detail == detail,
    {
        DeliveryError { kind: kind, detail: detail }
    }

    /// A copy of the detail message.
    pub fn detail(&self) -> (r: Option<String>)
        ensures
            opt_view(r) == opt_view(self.detail),
    {
        clone_opt(&self.detail)
    }

    /// The fixed description of this error's kind.
    pub fn description(&self) -> (r: &'static str)
        ensures
            r@ == kind_description(self.kind),
    {
        match self.kind {
            Kind::ChangeNotFound => "GET failed for specific change",
            Kind::PhaseNotFound => "Phase not implemented",
            Kind::PhaseFailed(_) => "Phase failed!",
            Kind::LocalPhasesNotFound => "LocalPhases tag not found",
            Kind::AuthenticationFailed => "401: Authentication failed",
            Kind::ForbiddenRequest => "403: Unauthorized request",
            Kind::InternalServerError => "500: There was an internal error on the server.\nCheck the logs on the Automate server.",
            Kind::EndpointNotFound => "404: Endpoint not found!",
            Kind::NoMatchingCommand => "No command matches your arguments - likely unimplemented feature",
            Kind::ClapArgAliasOverlap => "There was an argument/alias overlap.",
            Kind::NotOnABranch => "You must be on a branch",
            Kind::CannotReviewSameBranch => "You cannot target code for review from the same branch as the review is targeted for",
            Kind::FailedToExecute => "Tried to fork a process, and failed",
            Kind::PushFailed => "Git Push failed!",
            Kind::BadGitOutputMatch => "A line of git porcelain did not match!",
            Kind::MissingMetadataVersion => "Missing a version entry into the metadata.rb",
            Kind::BadMetadataVersionMatch => "Metadata version mismatch!",
            Kind::NoGitConfig => "Cannot find a .git/config file. Run 'git init' in your project root to initialize it.",
            Kind::NoDeliveryConfig => "Cannot find a .delivery/config.json file.",
            Kind::NoBitbucketSCPConfig => "Bitbucket Source Code Provider configuration not found; a Delivery administrator must first configure the link with Bitbucket",
            Kind::NoGithubSCPConfig => "Github Source Code Provider configuration not found; a Delivery administrator must first configure the link with Github",
            Kind::ProjectSCPNameMismatch => "Project and repository name mismatch.",
            Kind::OptionConstraint => "Invalid option constraint",
            Kind::UnknownProjectType => "Unknown Project Type",
            Kind::ProjectNotFound(_) => "Project Not Found!",
            Kind::UserNotFound(_) => "User Not Found!",
            Kind::GitFailed => "Git command failed!",
            Kind::UnauthorizedAction => "You are not authorized to perform this action.",
            Kind::MissingSshPubKey => "Missing SSH public key on the server side.",
            Kind::EmptyGitCommit => "Nothing to commit, working directory clean",
            Kind::GitSetupFailed => "Setup failed; you have already set up delivery.",
            Kind::ConfigParse => "Failed to parse the cli config file",
            Kind::DeliveryConfigParse => "Unable to parse the config.json file.",
            Kind::MissingConfig => "A configuration value is missing",
            Kind::MissingConfigFile => "Could not find the configuration file.",
            Kind::ConfigValidation => "A required option is missing - use the command line options or 'delivery setup'",
            Kind::IoError => "An I/O Error occurred",
            Kind::JsonError => "A JSON Parser error occurred",
            Kind::JsonEncode => "A JSON Encoding error occurred",
            Kind::NoBuildCookbook => "No valid build_cookbook entry in .delivery/config.json",
            Kind::NoHomedir => "Cannot find a homedir",
            Kind::ExpectedJsonString => "Expected a JSON string",
            Kind::BerksFailed => "Berkshelf command failed",
            Kind::NoValidBuildCookbook => "Cannot find a valid build_cookbook entry in .delivery/config.json",
            Kind::CopyFailed => "Failed to copy files",
            Kind::MissingBuildCookbookName => "You must have a name field in you build_cookbook",
            Kind::SupermarketFailed => "Failed to download a cookbook from the supermarket",
            Kind::MoveFailed => "Cannot move a file",
            Kind::RemoveFailed => "Cannot remove a file or directory",
            Kind::CloneFailed => "Unable to clone project.",
            Kind::TarFailed => "Cannot untar a file",
            Kind::MissingBuildCookbookField => "Missing a required field in your build_cookbook",
            Kind::ChefServerFailed => "Failed to download a cookbook from the Chef Server",
            Kind::ChefdkGenerateFailed => "Failed to execute 'chef generate'",
            Kind::ChownFailed => "Cannot set ownership to the dbuild user and group",
            Kind::ChefFailed => "Chef Client failed",
            Kind::ChmodFailed => "Cannot set permissions",
            Kind::UnsupportedHttpMethod => "Unsupported HTTP method",
            Kind::HttpError => "An HTTP Error occurred",
            Kind::UnsupportedProtocol => "Unsupported protocol",
            Kind::ApiError(_, _) => "An API Error occurred",
            Kind::JsonParseError => "Attempted to parse invalid JSON",
            Kind::TomlDecodeError => "Attempted to decode invalid TOML",
            Kind::IntParseError => "Attempted to parse invalid Int",
            Kind::OpenFailed => "Open command failed",
            Kind::NoToken => "Missing API token. Try `delivery token` to create one",
            Kind::TokenExpired => "The API token has expired. Try `delivery token` to generate a new one",
            Kind::NoEditor => "Environment variable EDITOR not set",
            Kind::MissingProjectConfig => "Unable to find .delivery/config.json in this directory or its parents",
            Kind::MissingRequiredConfigOption => "A required config option was not set. Please specify in your cli.toml.",
            Kind::FipsNotSupportedForChefDKPlatform => "The ChefDK for your platform does not support FIPS mode.\nRHEL and Windows are the currently supported FIPS platforms for ChefDK.",
            Kind::AutomateNginxCertFetchFailed => "Fetching the Automate certificate failed. The automate certificate is required for FIPS mode. Please make sure you can connect to your Automate server.",
            Kind::FromUtf8Error => "Failed to convert bytes from Utf8 into a string.",
            Kind::BranchNotFoundOnDeliveryRemote => "Could not find specified branch on the delivery remote.",
        }
    }

    /// The message shown to the user for this error.
    pub fn message(&self) -> (r: String)
        ensures
            r@ == kind_message(self.kind),
    {
        match &self.kind {
            Kind::PhaseFailed(c) => {
                let mut s = crate::text::owned("Phase failed with exit code (");
                let ghost start = s@;
                if *c < 0 {
                    s.append("-");
                    proof {
                        reveal_strlit("-");
                    }
                    assert("-"@ == seq!['-']);
                    let m: u32 = if *c == i32::MIN { 2147483648u32 } else { (-*c) as u32 };
                    assert(m as int == -(*c as int));
                    push_decimal(&mut s, m as usize);
                    assert(s@ == start + signed_decimal(*c));
                } else {
                    push_decimal(&mut s, *c as usize);
                    assert(s@ == start + signed_decimal(*c));
                }
                s.append(")!");
                s
            },
            Kind::ProjectNotFound(p) => {
                let mut s = crate::text::owned("The project '");
                s.append(p.as_str());
                s.append("' was not found.");
                s
            },
            Kind::UserNotFound(u) => {
                let mut s = crate::text::owned("The user '");
                s.append(u.as_str());
                s.append("' was not found.");
                s
            },
            _ => crate::text::owned(self.description()),
        }
    }
}

/// An error of kind `MissingConfig` with the given message.
pub fn missing_config(msg: &str) -> (e: DeliveryError)
    ensures
        e.kind is MissingConfig,
        opt_view(e.detail) == Some(msg@),
{
    DeliveryError { kind: Kind::MissingConfig, detail: Some(crate::text::owned(msg)) }
}

} // verus!
