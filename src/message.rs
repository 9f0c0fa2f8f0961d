//! The notification record and its projection into the delivered payload.

use crate::alert::{
    alert_phrase, is_pool_picture, picture, picture_url, random_below, theme_color, theme_icon,
    AlertType, PICTURE_COUNT,
};
use crate::build_info::{
    formatted_build_info_from_params, spec_build_name, spec_build_number, spec_build_url,
    spec_job_name, BuildMetadata,
};
use crate::channel::{find_channel, spec_channel, Source};
use crate::opt_view;
use crate::text::{resolve_text, spec_text, MessageError};
use vstd::prelude::*;

verus! {

/// How much detail a notification carries.
#[derive(Clone, Copy, Debug, PartialEq, Eq, Structural)]
pub enum Mode {
    Concise,
    Normal,
    NormalWithInfo,
}

impl Default for Mode {
    /// `Normal`, the mode of a configuration that names none.
    fn default() -> (r: Mode)
        ensures
            r == Mode::Normal,
    {
        Mode::Normal
    }
}

/// What the user configured for one notification.
pub struct OutParams {
    pub alert_type: AlertType,
    /// Replaces the theme's colour.
    pub color: Option<String>,
    /// Inline body text.
    pub message: Option<String>,
    /// Path of a file holding the body text, relative to the input directory.
    pub message_file: Option<String>,
    pub fail_if_message_file_missing: bool,
    /// Fence the body text as code.
    pub message_as_code: bool,
    pub mode: Mode,
    /// Trigger name that selects the delivery channel.
    pub channel: Option<String>,
}

/// The notification before it is shaped for delivery.
pub struct Message {
    pub color: String,
    pub text: Option<String>,
    pub icon_url: String,
    pub image_url: String,
}

/// One short titled value shown beside the body.
pub struct AttachmentField {
    pub title: String,
    pub value: String,
    pub short: bool,
}

/// The notification as delivered.
pub struct NotificationPayload {
    pub color: String,
    /// The author line.
    pub author_name: String,
    /// The body text.
    pub text: Option<String>,
    /// Link to the build's page.
    pub footer: Option<String>,
    pub footer_icon: String,
    pub thumb_url: String,
    pub fields: Option<Vec<AttachmentField>>,
    /// `None`: the platform's default channel.
    pub channel: Option<String>,
}

/// The body text that `params` asks for, given what reading its message file gave.
pub open spec fn params_text(params: &OutParams, file_contents: Option<Seq<char>>) -> Result<
    Option<Seq<char>>,
    MessageError,
> {
    spec_text(
        opt_view(params.message_file),
        opt_view(params.message),
        params.fail_if_message_file_missing,
        file_contents,
        params.message_as_code,
    )
}

/// The configured colour, else the theme's.
pub open spec fn params_color(params: &OutParams) -> Seq<char> {
    match params.color {
        Some(c) => c@,
        None => theme_color(params.alert_type),
    }
}

/// The author line.
pub open spec fn spec_author_name(
    mode: Mode,
    text: Option<Seq<char>>,
    m: &BuildMetadata,
    a: AlertType,
) -> Seq<char> {
    match mode {
        Mode::Concise => match text {
            Some(t) => t,
            None => spec_build_name(m),
        },
        _ => spec_build_name(m) + " - "@ + alert_phrase(a),
    }
}

/// The body text.
pub open spec fn spec_body(mode: Mode, text: Option<Seq<char>>) -> Option<Seq<char>> {
    match mode {
        Mode::Concise => None,
        _ => text,
    }
}

/// The view of a field: title, value, and whether it is short.
pub open spec fn field_view(f: AttachmentField) -> (Seq<char>, Seq<char>, bool) {
    (f.title@, f.value@, f.short)
}

/// The view of the optional fields.
pub open spec fn fields_view(f: Option<Vec<AttachmentField>>) -> Option<
    Seq<(Seq<char>, Seq<char>, bool)>,
> {
    match f {
        Some(v) => Some(v@.map_values(|x: AttachmentField| field_view(x))),
        None => None,
    }
}

/// The fields: a short `Job` and a short `Build` in `NormalWithInfo`, none otherwise.
pub open spec fn spec_fields(mode: Mode, m: &BuildMetadata) -> Option<
    Seq<(Seq<char>, Seq<char>, bool)>,
> {
    match mode {
        Mode::NormalWithInfo => Some(
            seq![("Job"@, spec_job_name(m), true), ("Build"@, spec_build_number(m), true)],
        ),
        _ => None,
    }
}

/// The channel `branch` selects, `None` where that is the empty channel.
pub open spec fn spec_payload_channel(branch: Option<Seq<char>>, source: &Source) -> Option<
    Seq<char>,
> {
    let c = spec_channel(branch, source);
    if c.len() == 0 {
        None
    } else {
        Some(c)
    }
}

impl Message {
    /// Whether `self` has the colour, body text `text` and icon that `params`
    /// ask for.
    pub open spec fn is_record_for(self, params: &OutParams, text: Option<Seq<char>>) -> bool {
        &&& self.color@ == params_color(params)
        &&& opt_view(self.text) == text
        &&& self.icon_url@ == theme_icon(params.alert_type)
    }

    /// Builds the record with the picture at position `picture_index` of the pool.
    ///
    /// `file_contents` is what reading the message file gave (`None`: it could
    /// not be read). Fails only when a required message file could not be read.
    pub fn with_picture(params: &OutParams, file_contents: Option<String>, picture_index: usize) -> (r:
        Result<Message, MessageError>)
        requires
            picture_index < PICTURE_COUNT,
        ensures
            match r {
                Ok(m) => {
                    &&& params_text(params, opt_view(file_contents)) matches Ok(t)
                    &&& m.is_record_for(params, t)
                    &&& m.image_url@ == picture(picture_index as int)
                },
                Err(e) => params_text(params, opt_view(file_contents)) matches Err(f) && f == e,
            },
    {
        let text = resolve_text(
            &params.message_file,
            &params.message,
            params.fail_if_message_file_missing,
            file_contents,
            params.message_as_code,
        );
        let text = match text {
            Ok(t) => t,
            Err(e) => {
                return Err(e);
            },
        };
        let color = match &params.color {
            Some(c) => c.clone(),
            None => String::from_str(params.alert_type.color()),
        };
        Ok(
            Message {
                color,
                text,
                icon_url: String::from_str(params.alert_type.icon_url()),
                image_url: String::from_str(picture_url(picture_index)),
            },
        )
    }

    /// Builds the record with a picture of the pool drawn at random.
    ///
    /// `file_contents` is what reading the message file gave (`None`: it could
    /// not be read). Fails only when a required message file could not be read.
    pub fn new(params: &OutParams, file_contents: Option<String>) -> (r: Result<
        Message,
        MessageError,
    >)
        ensures
            match r {
                Ok(m) => {
                    &&& params_text(params, opt_view(file_contents)) matches Ok(t)
                    &&& m.is_record_for(params, t)
                    &&& is_pool_picture(m.image_url@)
                },
                Err(e) => params_text(params, opt_view(file_contents)) matches Err(f) && f == e,
            },
    {
        let index = random_below(PICTURE_COUNT);
        Self::with_picture(params, file_contents, index)
    }

    /// Shapes the record for delivery, following the mode of `params`: the build's
    /// identifiers come from `build_metadata`, the channel from the trigger name
    /// of `params` looked up in `source`.
    pub fn into_slack_message(self, build_metadata: BuildMetadata, params: &OutParams, source: &Source) -> (r:
        NotificationPayload)
        ensures
            r.color@ == self.color@,
            r.author_name@ == spec_author_name(
                params.mode,
                opt_view(self.text),
                &build_metadata,
                params.alert_type,
            ),
            opt_view(r.text) == spec_body(params.mode, opt_view(self.text)),
            opt_view(r.footer) == spec_build_url(&build_metadata),
            r.footer_icon@ == self.icon_url@,
            r.thumb_url@ == self.image_url@,
            fields_view(r.fields) == spec_fields(params.mode, &build_metadata),
            opt_view(r.channel) == spec_payload_channel(opt_view(params.channel), source),
    {
        let info = formatted_build_info_from_params(&build_metadata);
        let author_name = match params.mode {
            Mode::Concise => match &self.text {
                Some(t) => t.clone(),
                None => info.build_name,
            },
            _ => {
                let mut a = info.build_name;
                a.append(" - ");
                a.append(params.alert_type.message());
                a
            },
        };
        let text = match params.mode {
            Mode::Concise => None,
            _ => self.text,
        };
        let fields = match params.mode {
            Mode::NormalWithInfo => {
                let mut v: Vec<AttachmentField> = Vec::new();
                v.push(
                    AttachmentField { title: String::from_str("Job"), value: info.job_name, short: true },
                );
                v.push(
                    AttachmentField {
                        title: String::from_str("Build"),
                        value: info.build_number,
                        short: true,
                    },
                );
                assert(v@.map_values(|x: AttachmentField| field_view(x)) =~= seq![
                    ("Job"@, spec_job_name(&build_metadata), true),
                    ("Build"@, spec_build_number(&build_metadata), true),
                ]);
                Some(v)
            },
            _ => None,
        };
        let channel = find_channel(params.channel.clone(), source);
        let channel = if channel.as_str().is_empty() {
            None
        } else {
            Some(channel)
        };
        NotificationPayload {
            color: self.color,
            author_name,
            text,
            footer: info.build_url,
            footer_icon: self.icon_url,
            thumb_url: self.image_url,
            fields,
            channel,
        }
    }
}

} // verus!
