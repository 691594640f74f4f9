use vstd::prelude::*;
use crate::auth::{resolve_auth, AuthConfigError};
use crate::destination::{ConfigPath, resolve_destination, user_config_dir, BOT_CONFIG_FILE_NAME};
use crate::error::SetupError;
use crate::fill::{
    fill, formatx_rendered, has_format_spec, ProvisioningRequest, TemplateFillError, API_URL_SLOT,
    PASSWORD_SLOT, REST_URL_SLOT, TOKEN_SLOT, USERNAME_SLOT,
};
use crate::permissions::{hardening_mode, lemma_owner_only_mode, PermissionModel, GROUP_OTHER_BITS, OWNER_ONLY_MODE};

verus! {

/// The template's path, relative to the working directory.
pub const CONFIG_TEMPLATE_PATH: &'static str = "mwbot_template.toml";

/// The operator's inputs to a provisioning run.
#[derive(Debug, Clone)]
pub struct SetupArgs {
    pub username: String,
    pub botpassword: Option<String>,
    pub oauth2_token: Option<String>,
    pub api_url: String,
    pub rest_url: String,
}

/// What a provisioning run writes, where, and the mode the file then gets.
#[derive(Debug, Clone)]
pub struct SetupPlan {
    pub destination: ConfigPath,
    pub contents: String,
    pub mode: Option<u32>,
}

/// The model of a plan.
pub ghost struct PlanView {
    pub dir: Seq<char>,
    pub file_name: Seq<char>,
    pub contents: Seq<char>,
    pub mode: Option<u32>,
}

impl View for SetupPlan {
    type V = PlanView;

    open spec fn view(&self) -> PlanView {
        PlanView {
            dir: self.destination.dir@,
            file_name: self.destination.file_name@,
            contents: self.contents@,
            mode: self.mode,
        }
    }
}

pub open spec fn opt_view(s: Option<String>) -> Option<Seq<char>> {
    match s {
        Some(v) => Some(v@),
        None => None,
    }
}

/// The texts of the password slot and the token slot that the two optional
/// credentials give, or why they give none.
pub open spec fn auth_slots(password: Option<Seq<char>>, token: Option<Seq<char>>) -> Result<
    (Seq<char>, Seq<char>),
    AuthConfigError,
> {
    match (password, token) {
        (Some(p), None) => Ok((p, Seq::empty())),
        (None, Some(t)) => Ok((Seq::empty(), t)),
        (None, None) => Err(AuthConfigError::MissingCredential),
        (Some(_), Some(_)) => Err(AuthConfigError::ConflictingCredentials),
    }
}

/// The slot texts that the operator's credentials give.
pub open spec fn credential_slots(args: SetupArgs) -> Result<(Seq<char>, Seq<char>), AuthConfigError> {
    auth_slots(opt_view(args.botpassword), opt_view(args.oauth2_token))
}

/// The filled template for valid credentials.
pub open spec fn planned_contents(template: Seq<char>, args: SetupArgs) -> Option<Seq<char>>
    recommends
        credential_slots(args) is Ok,
{
    let slots = credential_slots(args)->Ok_0;
    if has_format_spec(template) {
        None
    } else {
        formatx_rendered(
            template,
            (API_URL_SLOT@, args.api_url@),
            (REST_URL_SLOT@, args.rest_url@),
            (USERNAME_SLOT@, args.username@),
            (PASSWORD_SLOT@, slots.0),
            (TOKEN_SLOT@, slots.1),
        )
    }
}

/// The plan of a run where every step succeeds, or `None` where one fails.
pub open spec fn setup_result(
    template: Option<Seq<char>>,
    args: SetupArgs,
    config_dir: Option<Seq<char>>,
    model: PermissionModel,
) -> Option<PlanView> {
    if template is Some && credential_slots(args) is Ok
        && planned_contents(template->0, args) is Some && config_dir is Some {
        Some(
            PlanView {
                dir: config_dir->0,
                file_name: BOT_CONFIG_FILE_NAME@,
                contents: planned_contents(template->0, args)->0,
                mode: if model is PosixModeBits {
                    Some(OWNER_ONLY_MODE)
                } else {
                    None
                },
            },
        )
    } else {
        None
    }
}

/// Decides a provisioning run from the template's text (`None` where it
/// could not be read), the operator's inputs, the configuration directory
/// and the host's permission model. The steps run in order: template,
/// authentication, filling, destination; the first failure is returned and
/// no plan, so nothing is written.
pub fn plan_setup_in(
    template: Option<String>,
    args: SetupArgs,
    config_dir: Option<String>,
    model: PermissionModel,
) -> (r: Result<SetupPlan, SetupError>)
    ensures
        r is Ok <==> setup_result(opt_view(template), args, opt_view(config_dir), model) is Some,
        r is Ok ==> r->Ok_0@ == setup_result(opt_view(template), args, opt_view(config_dir), model)->0,
        template is None ==> (r matches Err(SetupError::TemplateNotFound(p)) && p@
            == CONFIG_TEMPLATE_PATH@),
        template is Some && credential_slots(args) is Err
            ==> r == Err::<SetupPlan, SetupError>(
            SetupError::Auth(
                credential_slots(args)->Err_0,
            ),
        ),
        template is Some && credential_slots(args) is Ok
            && planned_contents(template->0@, args) is None ==> r == Err::<SetupPlan, SetupError>(
            SetupError::Fill(TemplateFillError::PlaceholderMismatch),
        ),
        template is Some && credential_slots(args) is Ok
            && planned_contents(template->0@, args) is Some && config_dir is None ==> r == Err::<
            SetupPlan,
            SetupError,
        >(SetupError::DestinationUnresolvable),
{
    let template = match template {
        Some(t) => t,
        None => {
            return Err(SetupError::TemplateNotFound(String::from_str(CONFIG_TEMPLATE_PATH)));
        },
    };
    let SetupArgs { username, botpassword, oauth2_token, api_url, rest_url } = args;
    let auth = match resolve_auth(botpassword, oauth2_token) {
        Ok(a) => a,
        Err(e) => {
            return Err(SetupError::Auth(e));
        },
    };
    let request = ProvisioningRequest::new(username, auth, api_url, rest_url);
    let contents = match fill(template.as_str(), &request) {
        Ok(text) => text,
        Err(_) => {
            return Err(SetupError::Fill(TemplateFillError::PlaceholderMismatch));
        },
    };
    let destination = match resolve_destination(config_dir) {
        Ok(p) => p,
        Err(e) => {
            return Err(e);
        },
    };
    Ok(SetupPlan { destination, contents, mode: hardening_mode(model) })
}

/// Decides a provisioning run in the current user's configuration
/// directory. Whatever directory the platform reports, the failures of the
/// template, authentication and filling steps come as in `plan_setup_in`,
/// and a plan writes the filled template to the configuration file.
pub fn plan_setup(template: Option<String>, args: SetupArgs, model: PermissionModel) -> (r: Result<
    SetupPlan,
    SetupError,
>)
    ensures
        template is None ==> (r matches Err(SetupError::TemplateNotFound(p)) && p@
            == CONFIG_TEMPLATE_PATH@),
        template is Some && credential_slots(args) is Err
            ==> r == Err::<SetupPlan, SetupError>(
            SetupError::Auth(
                credential_slots(args)->Err_0,
            ),
        ),
        template is Some && credential_slots(args) is Ok
            && planned_contents(template->0@, args) is None ==> r == Err::<SetupPlan, SetupError>(
            SetupError::Fill(TemplateFillError::PlaceholderMismatch),
        ),
        r is Ok ==> template is Some && credential_slots(args) is Ok && planned_contents(template->0@, args) == Some(r->Ok_0.contents@)
            && r->Ok_0.destination.file_name@ == BOT_CONFIG_FILE_NAME@ && r->Ok_0.mode == (
        if model is PosixModeBits {
            Some(OWNER_ONLY_MODE)
        } else {
            None
        }),
        template is Some && credential_slots(args) is Ok && planned_contents(template->0@, args)
            is Some && r is Err ==> r == Err::<SetupPlan, SetupError>(
            SetupError::DestinationUnresolvable,
        ),
{
    plan_setup_in(template, args, user_config_dir(), model)
}

/// The mode to give the file once the plan's write has been attempted:
/// the plan's mode after a successful write, and nothing after a failed one
/// or where the host has no permission bits.
pub fn mode_to_apply(plan: &SetupPlan, written: bool) -> (r: Option<u32>)
    ensures
        r == (if written {
            plan.mode
        } else {
            None
        }),
{
    if written {
        plan.mode
    } else {
        None
    }
}

/// The outcome of a run after its plan was carried out: whether the file
/// was written, and whether its permissions were then restricted (on a host
/// without permission bits there is nothing to restrict). A failed write
/// comes first; a write that could not be hardened is reported as such,
/// never as success.
pub fn conclude(plan: &SetupPlan, written: bool, hardened: bool) -> (r: Result<(), SetupError>)
    ensures
        !written ==> r == Err::<(), SetupError>(SetupError::WriteFailed),
        written && plan.mode is Some && !hardened ==> r == Err::<(), SetupError>(
            SetupError::WrittenUnhardened,
        ),
        written && (plan.mode is None || hardened) ==> r is Ok,
{
    if !written {
        Err(SetupError::WriteFailed)
    } else if plan.mode.is_some() && !hardened {
        Err(SetupError::WrittenUnhardened)
    } else {
        Ok(())
    }
}

pub open spec fn confirmation_message(path: Seq<char>) -> Seq<char> {
    "Successfully set up "@ + path + "."@
}

/// The confirmation of a successful run, naming the configuration file.
pub fn confirmation(path: &str) -> (r: String)
    ensures
        r@ == confirmation_message(path@),
{
    String::from_str("Successfully set up ").concat(path).concat(".")
}

/// The configuration files, by directory and file name, with their contents.
pub type FileContents = Map<(Seq<char>, Seq<char>), Seq<char>>;

/// The files after a plan's write: the destination's whole content is
/// replaced.
pub open spec fn apply_plan(files: FileContents, plan: PlanView) -> FileContents {
    files.insert((plan.dir, plan.file_name), plan.contents)
}

/// Provisioning is idempotent: applying a run's write to the files it
/// already produced changes no file.
pub proof fn lemma_setup_idempotent(
    template: Option<Seq<char>>,
    args: SetupArgs,
    config_dir: Option<Seq<char>>,
    model: PermissionModel,
    files: FileContents,
)
    requires
        setup_result(template, args, config_dir, model) is Some,
    ensures
        ({
            let plan = setup_result(template, args, config_dir, model)->0;
            apply_plan(apply_plan(files, plan), plan) == apply_plan(files, plan)
        }),
{
    let p = setup_result(template, args, config_dir, model)->0;
    assert(apply_plan(apply_plan(files, p), p) =~= apply_plan(files, p));
}

/// On a host with permission bits, a successful run leaves the file with no
/// access for group or others.
pub proof fn lemma_setup_owner_only(
    template: Option<Seq<char>>,
    args: SetupArgs,
    config_dir: Option<Seq<char>>,
)
    requires
        setup_result(template, args, config_dir, PermissionModel::PosixModeBits) is Some,
    ensures
        setup_result(template, args, config_dir, PermissionModel::PosixModeBits)->0.mode matches Some(
            m,
        ) && m & GROUP_OTHER_BITS == 0,
{
    lemma_owner_only_mode();
}

/// A run whose template cannot be read plans nothing, so nothing is written.
pub proof fn lemma_missing_template_writes_nothing(
    args: SetupArgs,
    config_dir: Option<Seq<char>>,
    model: PermissionModel,
)
    ensures
        setup_result(None, args, config_dir, model) is None,
{
}

} // verus!
