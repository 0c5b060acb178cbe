//! Uploading a file to object storage.

use vstd::prelude::*;
use crate::flow::{Action, Event};
use crate::reply::{Body, Reply, INTERNAL_SERVER_ERROR, OK, is_text_reply, text_reply};

verus! {

/// Where an upload stands.
#[derive(Debug, Clone, Copy, PartialEq, Eq)]
pub enum UploadStage {
    AwaitCheck,
    AwaitMake,
    AwaitUpload,
    Done,
}

/// One upload of a local file into a bucket, which is created when it does
/// not exist.
#[derive(Debug)]
pub struct UploadFlow {
    pub bucket: String,
    pub object: String,
    pub filename: String,
    /// The reply when the upload went through.
    pub success: Option<Reply>,
    /// A strict upload does not handle failures: the application gives up
    /// on them before reporting them.
    pub strict: bool,
    pub stage: UploadStage,
}

/// The event reports a failure of the storage.
pub open spec fn is_storage_failure(event: Event) -> bool {
    ||| event matches Event::BucketChecked(Err(_))
    ||| event matches Event::BucketMade(Err(_))
    ||| event matches Event::Uploaded(Err(_))
}

/// Whether the event reports a failure of the storage.
pub fn storage_failed(event: &Event) -> (failed: bool)
    ensures
        failed == is_storage_failure(*event),
{
    match event {
        Event::BucketChecked(Err(_)) => true,
        Event::BucketMade(Err(_)) => true,
        Event::Uploaded(Err(_)) => true,
        _ => false,
    }
}

/// The action uploads the flow's file into its bucket.
pub open spec fn uploads(flow: UploadFlow, action: Action) -> bool {
    action == (Action::UploadObject {
        bucket: flow.bucket,
        object: flow.object,
        filename: flow.filename,
    })
}

/// An upload action names the flow's bucket, its object and its local file,
/// whatever stage the flow is in: the object is the same whether the bucket
/// was found or had just been made.
pub proof fn lemma_upload_names_object(flow: UploadFlow, action: Action)
    requires
        uploads(flow, action),
    ensures
        action matches Action::UploadObject { bucket, object, filename } && bucket == flow.bucket
            && object == flow.object && filename == flow.filename,
{
}

fn new_upload(bucket: &str, filename: &str, success: Reply, strict: bool) -> (started: (
    UploadFlow,
    Action,
))
    ensures
        started.0.bucket@ == bucket@,
        started.0.object@ == "test.png"@,
        started.0.filename@ == filename@,
        started.0.success == Some(success),
        started.0.strict == strict,
        started.0.stage == UploadStage::AwaitCheck,
        started.1 == (Action::BucketExists { bucket: started.0.bucket }),
{
    let flow = UploadFlow {
        bucket: String::from_str(bucket),
        object: String::from_str("test.png"),
        filename: String::from_str(filename),
        success: Some(success),
        strict,
        stage: UploadStage::AwaitCheck,
    };
    let action = Action::BucketExists { bucket: flow.bucket.clone() };
    (flow, action)
}

impl UploadFlow {
    /// The upload is consistent: its success reply is kept until it is sent.
    pub open spec fn wf(self) -> bool {
        (self.stage == UploadStage::Done) == (self.success is None)
    }

    /// `event` is the outcome the upload waits for.
    pub open spec fn awaits(self, event: Event) -> bool {
        match self.stage {
            UploadStage::AwaitCheck => event is BucketChecked,
            UploadStage::AwaitMake => event is BucketMade,
            UploadStage::AwaitUpload => event is Uploaded,
            UploadStage::Done => false,
        }
    }

    /// How many outcomes the upload can still wait for.
    pub open spec fn remaining(self) -> nat {
        match self.stage {
            UploadStage::AwaitCheck => 3,
            UploadStage::AwaitMake => 2,
            UploadStage::AwaitUpload => 1,
            UploadStage::Done => 0,
        }
    }

    /// Uploads `test.png` from the desktop into the bucket `newbucket`;
    /// storage failures are answered 500 with their text, and success with
    /// 200 "Berhasil upload".
    pub fn upload_file() -> (started: (UploadFlow, Action))
        ensures
            started.0.bucket@ == "newbucket"@,
            started.0.object@ == "test.png"@,
            started.0.filename@ == "/Users/ighfarhasbiash/Desktop/test.png"@,
            started.0.success matches Some(r) && is_text_reply(r, OK, "Berhasil upload"@),
            !started.0.strict,
            started.0.stage == UploadStage::AwaitCheck,
            started.0.wf(),
            started.1 == (Action::BucketExists { bucket: started.0.bucket }),
    {
        new_upload(
            "newbucket",
            "/Users/ighfarhasbiash/Desktop/test.png",
            text_reply(OK, "Berhasil upload"),
            false,
        )
    }

    /// Uploads the project's `test.png` into the bucket `newbucket2`, with
    /// an empty 200 on success; a strict upload.
    pub fn cocoba() -> (started: (UploadFlow, Action))
        ensures
            started.0.bucket@ == "newbucket2"@,
            started.0.object@ == "test.png"@,
            started.0.filename@
                == "/Users/ighfarhasbiash/Documents/rust/axum_learn_duckdb/test.png"@,
            started.0.success == Some(Reply { status: OK, body: Body::Empty }),
            started.0.strict,
            started.0.stage == UploadStage::AwaitCheck,
            started.0.wf(),
            started.1 == (Action::BucketExists { bucket: started.0.bucket }),
    {
        new_upload(
            "newbucket2",
            "/Users/ighfarhasbiash/Documents/rust/axum_learn_duckdb/test.png",
            Reply { status: OK, body: Body::Empty },
            true,
        )
    }

    /// Takes the outcome of the last action and answers with the next one:
    /// a missing bucket is created before the upload, a present one is
    /// used as it is.
    pub fn step(&mut self, event: Event) -> (action: Action)
        requires
            old(self).wf(),
            old(self).awaits(event),
            old(self).strict ==> !is_storage_failure(event),
        ensures
            final(self).wf(),
            final(self).bucket == old(self).bucket,
            final(self).object == old(self).object,
            final(self).filename == old(self).filename,
            final(self).strict == old(self).strict,
            !(action is Respond) ==> final(self).success == old(self).success,
            action matches Action::UploadObject { bucket, object, filename } ==> bucket == old(
                self,
            ).bucket && object == old(self).object && filename == old(self).filename,
            action is Respond ==> final(self).stage == UploadStage::Done,
            !(action is Respond) ==> final(self).remaining() < old(self).remaining(),
            match event {
                Event::BucketChecked(Ok(true)) => uploads(*old(self), action) && final(self).stage
                    == UploadStage::AwaitUpload,
                Event::BucketChecked(Ok(false)) => action == (Action::MakeBucket {
                    bucket: old(self).bucket,
                }) && final(self).stage == UploadStage::AwaitMake,
                Event::BucketMade(Ok(_)) => uploads(*old(self), action) && final(self).stage
                    == UploadStage::AwaitUpload,
                Event::Uploaded(Ok(_)) => action == Action::Respond(old(self).success.unwrap()),
                Event::BucketChecked(Err(e)) => action matches Action::Respond(r) && is_text_reply(
                    r,
                    INTERNAL_SERVER_ERROR,
                    e@,
                ),
                Event::BucketMade(Err(e)) => action matches Action::Respond(r) && is_text_reply(
                    r,
                    INTERNAL_SERVER_ERROR,
                    e@,
                ),
                Event::Uploaded(Err(e)) => action matches Action::Respond(r) && is_text_reply(
                    r,
                    INTERNAL_SERVER_ERROR,
                    e@,
                ),
                _ => false,
            },
    {
        match event {
            Event::BucketChecked(Ok(exists)) => {
                if exists {
                    self.stage = UploadStage::AwaitUpload;
                    Action::UploadObject {
                        bucket: self.bucket.clone(),
                        object: self.object.clone(),
                        filename: self.filename.clone(),
                    }
                } else {
                    self.stage = UploadStage::AwaitMake;
                    Action::MakeBucket { bucket: self.bucket.clone() }
                }
            },
            Event::BucketMade(Ok(_)) => {
                self.stage = UploadStage::AwaitUpload;
                Action::UploadObject {
                    bucket: self.bucket.clone(),
                    object: self.object.clone(),
                    filename: self.filename.clone(),
                }
            },
            Event::Uploaded(Ok(_)) => {
                self.stage = UploadStage::Done;
                Action::Respond(self.success.take().unwrap())
            },
            Event::BucketChecked(Err(e)) | Event::BucketMade(Err(e)) | Event::Uploaded(Err(e)) => {
                self.stage = UploadStage::Done;
                self.success = None;
                Action::Respond(Reply { status: INTERNAL_SERVER_ERROR, body: Body::Text(e) })
            },
            _ => {
                self.stage = UploadStage::Done;
                self.success = None;
                Action::Respond(Reply { status: INTERNAL_SERVER_ERROR, body: Body::Empty })
            },
        }
    }
}

} // verus!
