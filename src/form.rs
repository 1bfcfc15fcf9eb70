//! The multipart form of a run submission: which parts it holds, in which
//! order, and with which names. Streaming the files is left to the caller.

use vstd::prelude::*;
use crate::env::{env_error_for, env_field, env_field_name, env_pair, parse_env_arg};
use crate::errors::EnvArgError;

verus! {

/// A local package to upload, as found on disk.
#[derive(Debug, Clone, PartialEq, Eq)]
pub struct PackageFile {
    pub path: String,
    /// The file name sent with the part.
    pub file_name: String,
    /// The length in bytes, announced before streaming.
    pub size: u64,
}

/// Everything a run submission sends. Absent optional values produce no
/// form field at all.
#[derive(Debug, Clone, PartialEq, Eq)]
pub struct RunRequest {
    pub application: Option<PackageFile>,
    pub test_application: PackageFile,
    pub name: Option<String>,
    pub link: Option<String>,
    pub platform: String,
    pub os_version: Option<String>,
    pub system_image: Option<String>,
    pub device: Option<String>,
    pub isolated: Option<bool>,
    pub flavor: Option<String>,
    pub env_args: Option<Vec<String>>,
    /// The filtering configuration, already serialized to text.
    pub filtering_configuration: Option<String>,
}

/// One part of the multipart form.
#[derive(Debug, Clone, PartialEq, Eq)]
pub enum FormPart {
    Text { field: String, value: String },
    File { field: String, file_name: String, path: String, length: u64 },
}

/// The content of a form part.
pub ghost enum PartView {
    Text { field: Seq<char>, value: Seq<char> },
    File { field: Seq<char>, file_name: Seq<char>, path: Seq<char>, length: u64 },
}

impl View for FormPart {
    type V = PartView;

    open spec fn view(&self) -> PartView {
        match self {
            FormPart::Text { field, value } => PartView::Text { field: field@, value: value@ },
            FormPart::File { field, file_name, path, length } => PartView::File {
                field: field@,
                file_name: file_name@,
                path: path@,
                length: *length,
            },
        }
    }
}

/// The contents of a sequence of parts.
pub open spec fn views(parts: Seq<FormPart>) -> Seq<PartView> {
    parts.map_values(|p: FormPart| p@)
}

pub open spec fn file_part(field: Seq<char>, f: PackageFile) -> PartView {
    PartView::File { field, file_name: f.file_name@, path: f.path@, length: f.size }
}

/// A text field where the value is present, nothing where it is absent.
pub open spec fn optional_text(field: Seq<char>, value: Option<String>) -> Seq<PartView> {
    match value {
        Some(v) => seq![PartView::Text { field, value: v@ }],
        None => seq![],
    }
}

pub open spec fn bool_text(b: bool) -> Seq<char> {
    if b {
        "true"@
    } else {
        "false"@
    }
}

/// The field `env_args[<key>]` holding the value of a valid argument.
pub open spec fn env_part(arg: Seq<char>) -> PartView {
    match env_pair(arg) {
        Some((key, value)) => PartView::Text { field: env_field(key), value },
        None => PartView::Text { field: seq![], value: seq![] },
    }
}

/// Whether every environment argument given is well formed.
pub open spec fn env_args_valid(args: Option<Vec<String>>) -> bool {
    match args {
        Some(v) => forall|i: int| 0 <= i < v@.len() ==> (#[trigger] env_pair(v@[i]@)) is Some,
        None => true,
    }
}

pub open spec fn env_parts(args: Option<Vec<String>>) -> Seq<PartView> {
    match args {
        Some(v) => v@.map_values(|a: String| env_part(a@)),
        None => seq![],
    }
}

/// The parts before the environment fields: platform, test package,
/// application package, name.
pub open spec fn form_head(req: RunRequest) -> Seq<PartView> {
    seq![
        PartView::Text { field: "platform"@, value: req.platform@ },
        file_part("testapp"@, req.test_application),
    ] + match req.application {
        Some(f) => seq![file_part("app"@, f)],
        None => seq![],
    } + optional_text("name"@, req.name)
}

/// The parts after the environment fields: link, OS version, system image,
/// device, isolation, flavor, filtering configuration.
pub open spec fn form_tail(req: RunRequest) -> Seq<PartView> {
    optional_text("link"@, req.link) + optional_text("osversion"@, req.os_version)
        + optional_text("system_image"@, req.system_image) + optional_text("device"@, req.device)
        + match req.isolated {
        Some(b) => seq![PartView::Text { field: "isolated"@, value: bool_text(b) }],
        None => seq![],
    } + optional_text("flavor"@, req.flavor) + optional_text(
        "filtering_configuration"@,
        req.filtering_configuration,
    )
}

/// The form of a request whose environment arguments are all well formed;
/// each optional field only where present.
pub open spec fn form_of(req: RunRequest) -> Seq<PartView> {
    form_head(req) + env_parts(req.env_args) + form_tail(req)
}

fn push_part(parts: &mut Vec<FormPart>, p: FormPart)
    ensures
        views(final(parts)@) == views(old(parts)@).push(p@),
{
    parts.push(p);
    assert(views(parts@) =~= views(old(parts)@).push(p@));
}

fn push_optional_text(parts: &mut Vec<FormPart>, field: &str, value: &Option<String>)
    ensures
        views(final(parts)@) == views(old(parts)@) + optional_text(field@, *value),
{
    match value {
        Some(v) => {
            push_part(parts, FormPart::Text { field: field.to_owned(), value: v.clone() });
            assert(views(parts@) =~= views(old(parts)@) + optional_text(field@, *value));
        },
        None => {
            assert(views(parts@) =~= views(old(parts)@) + optional_text(field@, *value));
        },
    }
}

fn file_form_part(field: &str, f: &PackageFile) -> (r: FormPart)
    ensures
        r@ == file_part(field@, *f),
{
    FormPart::File {
        field: field.to_owned(),
        file_name: f.file_name.clone(),
        path: f.path.clone(),
        length: f.size,
    }
}

/// The environment fields of `args`, or the error for the first malformed one.
fn env_form_parts(args: &Vec<String>) -> (r: Result<Vec<FormPart>, EnvArgError>)
    ensures
        r is Ok <==> forall|i: int| 0 <= i < args@.len() ==> (#[trigger] env_pair(args@[i]@)) is Some,
        r matches Ok(parts) ==> views(parts@) == args@.map_values(|a: String| env_part(a@)),
        r matches Err(e) ==> exists|i: int|
            0 <= i < args@.len() && (#[trigger] env_pair(args@[i]@)) is None && env_error_for(
                e,
                args@[i]@,
            ) && forall|j: int| 0 <= j < i ==> (#[trigger] env_pair(args@[j]@)) is Some,
{
    let mut parts: Vec<FormPart> = Vec::new();
    let mut i: usize = 0;
    while i < args.len()
        invariant
            i <= args@.len(),
            forall|j: int| 0 <= j < i ==> (#[trigger] env_pair(args@[j]@)) is Some,
            views(parts@) == args@.take(i as int).map_values(|a: String| env_part(a@)),
        decreases args.len() - i,
    {
        match parse_env_arg(args[i].as_str()) {
            Ok((key, value)) => {
                let field = env_field_name(key.as_str());
                push_part(&mut parts, FormPart::Text { field, value });
                assert(args@.take(i + 1).map_values(|a: String| env_part(a@)) =~= args@.take(
                    i as int,
                ).map_values(|a: String| env_part(a@)).push(env_part(args@[i as int]@)));
            },
            Err(e) => {
                return Err(e);
            },
        }
        i = i + 1;
    }
    assert(args@.take(i as int) =~= args@);
    Ok(parts)
}

fn head_parts(req: &RunRequest) -> (r: Vec<FormPart>)
    ensures
        views(r@) == form_head(*req),
{
    let mut parts: Vec<FormPart> = Vec::new();
    push_part(
        &mut parts,
        FormPart::Text { field: "platform".to_owned(), value: req.platform.clone() },
    );
    push_part(&mut parts, file_form_part("testapp", &req.test_application));
    let ghost two = views(parts@);
    match &req.application {
        Some(f) => push_part(&mut parts, file_form_part("app", f)),
        None => {},
    }
    let ghost three = views(parts@);
    assert(three =~= two + match req.application {
        Some(f) => seq![file_part("app"@, f)],
        None => seq![],
    });
    push_optional_text(&mut parts, "name", &req.name);
    assert(views(parts@) =~= form_head(*req));
    parts
}

fn tail_parts(req: &RunRequest) -> (r: Vec<FormPart>)
    ensures
        views(r@) == form_tail(*req),
{
    let mut parts: Vec<FormPart> = Vec::new();
    push_optional_text(&mut parts, "link", &req.link);
    push_optional_text(&mut parts, "osversion", &req.os_version);
    push_optional_text(&mut parts, "system_image", &req.system_image);
    push_optional_text(&mut parts, "device", &req.device);
    let ghost four = views(parts@);
    match req.isolated {
        Some(b) => {
            let value = if b {
                "true".to_owned()
            } else {
                "false".to_owned()
            };
            push_part(&mut parts, FormPart::Text { field: "isolated".to_owned(), value });
        },
        None => {},
    }
    assert(views(parts@) =~= four + match req.isolated {
        Some(b) => seq![PartView::Text { field: "isolated"@, value: bool_text(b) }],
        None => seq![],
    });
    push_optional_text(&mut parts, "flavor", &req.flavor);
    push_optional_text(&mut parts, "filtering_configuration", &req.filtering_configuration);
    assert(views(parts@) =~= form_tail(*req));
    parts
}

/// The multipart form of `req`. Environment arguments are checked first,
/// and the first malformed one is reported before anything else is done.
pub fn build_run_form(req: &RunRequest) -> (r: Result<Vec<FormPart>, EnvArgError>)
    ensures
        r is Ok <==> env_args_valid(req.env_args),
        r matches Ok(parts) ==> views(parts@) == form_of(*req),
        r matches Err(e) ==> req.env_args matches Some(v) && exists|i: int|
            0 <= i < v@.len() && (#[trigger] env_pair(v@[i]@)) is None && env_error_for(
                e,
                v@[i]@,
            ) && forall|j: int| 0 <= j < i ==> (#[trigger] env_pair(v@[j]@)) is Some,
{
    let mut env = match &req.env_args {
        Some(v) => match env_form_parts(v) {
            Ok(p) => p,
            Err(e) => {
                return Err(e);
            },
        },
        None => Vec::new(),
    };
    assert(views(env@) =~= env_parts(req.env_args));
    let mut parts = head_parts(req);
    let ghost head = parts@;
    parts.append(&mut env);
    assert(views(parts@) =~= views(head) + env_parts(req.env_args));
    let mut tail = tail_parts(req);
    let ghost middle = parts@;
    let ghost end = tail@;
    parts.append(&mut tail);
    assert(views(parts@) =~= views(middle) + views(end));
    Ok(parts)
}

} // verus!
