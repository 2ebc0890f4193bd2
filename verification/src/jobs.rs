//! The decisions of the main loop about screenshot jobs: removing them all,
//! following the messages of a running job, starting the next one, reporting
//! the queue, and reporting what a finished job produced. The threads, the
//! channels, the pixels and the files are the front end's.

use vstd::prelude::*;
use crate::commands::files::{local_timestamp, SAVE_EXTENSION};
use crate::state::{
    AppState, RenderSettings, WaitingScreenshot, error_msg, info_msg, logged, logged_all,
    scrolled_to_bottom, success_msg, warn_msg,
};
use crate::text::{esc, escaped, i64_to_text, int_text, u64_to_text};

verus! {

broadcast use vstd::std_specs::hash::group_hash_axioms;

/// The key of the prioritized message that reports the job queue.
pub const WAITING_JOBS_MESSAGE_ID: i64 = 1;

/// A running screenshot job, as the main loop follows it.
pub struct JobProgress {
    /// The key of the job's prioritized message.
    pub id: i64,
    /// The height of the picture, in pixels.
    pub height: i32,
    /// How many lines the job has rendered so far.
    pub rendered_lines: i32,
    /// The job said it has finished.
    pub finished: bool,
}

impl JobProgress {
    /// A job that has rendered nothing yet.
    pub fn new(id: i64, height: i32) -> (r: JobProgress)
        ensures
            r == (JobProgress { id, height, rendered_lines: 0, finished: false }),
    {
        JobProgress { id, height, rendered_lines: 0, finished: false }
    }
}

/// A message that a job's worker sends to the main loop.
pub enum JobMessage {
    /// One more line was rendered.
    LineRender,
    /// The worker is done.
    JobFinished,
    /// Replace the job's prioritized message.
    SetMessage(String),
    /// Scroll the log panel to the bottom.
    ScrollLogs,
    /// Log a warning.
    Warning(String),
    /// Limit the number of lines of a GPU chunk.
    LimitGPUChunkSize(i32),
}

/// `m2` is `m1` with `key` mapped to a message whose text is `text`.
pub open spec fn message_set(m1: Map<i64, String>, m2: Map<i64, String>, key: i64, text: Seq<char>) -> bool {
    &&& m2 == m1.insert(key, m2[key])
    &&& m2[key]@ == text
}

/// The progress message of a job that has rendered `lines` of `height`
/// lines.
pub open spec fn progress_text(lines: int, height: int) -> Seq<char> {
    "Screenshot progression:\nline "@ + int_text(lines) + "/"@ + int_text(height) + " (<command "@
        + int_text(lines * 100 / height) + "%>)"@
}

/// `s` with its prioritized messages taken from `from`.
pub open spec fn with_messages_of(s: AppState, from: AppState) -> AppState {
    AppState { prioritized_log_messages: from.prioritized_log_messages, ..s }
}

/// What following `msg` does to the state and to the job.
pub open spec fn job_message_post(s: AppState, j: JobProgress, msg: JobMessage, s2: AppState, j2: JobProgress) -> bool {
    match msg {
        JobMessage::LineRender => {
            &&& j2 == (JobProgress { rendered_lines: (j.rendered_lines + 1) as i32, ..j })
            &&& s2 == with_messages_of(s, s2)
            &&& message_set(s.prioritized_log_messages@, s2.prioritized_log_messages@, j.id,
                progress_text(j.rendered_lines + 1, j.height as int))
        },
        JobMessage::JobFinished => j2 == (JobProgress { finished: true, ..j }) && s2 == s,
        JobMessage::SetMessage(m) => {
            &&& j2 == j
            &&& s2 == with_messages_of(s, s2)
            &&& s2.prioritized_log_messages@ == s.prioritized_log_messages@.insert(j.id, m)
        },
        JobMessage::ScrollLogs => {
            &&& j2 == j
            &&& s2 == (AppState { log_panel_scroll_state: scrolled_to_bottom(s.log_panel_scroll_state), ..s })
        },
        JobMessage::Warning(w) => j2 == j && logged(s, s, s2, warn_msg(w@)),
        JobMessage::LimitGPUChunkSize(size) => {
            &&& j2 == j
            &&& s2 == (AppState {
                render_settings: RenderSettings { chunk_size_limit: Some(size), ..s.render_settings },
                ..s
            })
        },
    }
}

/// The message that reports the job queue: how many jobs wait, and whether
/// execution is paused.
pub open spec fn waiting_text(waiting: int, paused: bool) -> Seq<char> {
    "<yellow "@ + int_text(waiting) + "> job(s) waiting in queue. "@ + (if paused {
        "Job execution is paused, you can resume with the <command pause> command."@
    } else {
        Seq::empty()
    })
}

/// The message of a job that could not finish.
pub open spec fn failure_text(err: Seq<char>) -> Seq<char> {
    "Could not finish screenshot, reason: "@ + err
}

/// The name, without extension, under which a finished screenshot is saved:
/// the requested name, or the fractal name and the time.
pub open spec fn screenshot_base_spec(name: Option<Seq<char>>, frac_name: Seq<char>, timestamp: Seq<char>) -> Seq<char> {
    match name {
        Some(n) => n,
        None => frac_name + " "@ + timestamp,
    }
}

/// The text of an optional name.
pub open spec fn name_view(name: Option<String>) -> Option<Seq<char>> {
    match name {
        Some(n) => Some(n@),
        None => None,
    }
}

/// The message that reports the state file saved beside a screenshot.
pub open spec fn state_saved_text(filename: Seq<char>) -> Seq<char> {
    "State file containing capture parameters saved to <acc "@ + filename + "> in case of failure."@
}

/// The message that reports a failed picture save.
pub open spec fn picture_error_text(err: Seq<char>) -> Seq<char> {
    "Could not save screenshot: "@ + escaped(err)
}

/// The message that reports a saved picture.
pub open spec fn picture_saved_text(width: int, height: int, filename: Seq<char>) -> Seq<char> {
    "Screenshot ("@ + int_text(width) + "x"@ + int_text(height) + ") saved to <acc "@ + escaped(filename) + ">"@
}

/// The two messages that report the files of a finished screenshot.
pub open spec fn saved_messages(
    state_file: Seq<char>,
    state_res: Result<(), Seq<char>>,
    width: int,
    height: int,
    picture_file: Seq<char>,
    picture_res: Result<(), Seq<char>>,
) -> Seq<Seq<char>> {
    seq![
        match state_res {
            Ok(_) => info_msg(state_saved_text(state_file)),
            Err(e) => error_msg(e),
        },
        match picture_res {
            Ok(_) => success_msg(picture_saved_text(width, height, picture_file)),
            Err(e) => error_msg(picture_error_text(e)),
        },
    ]
}

/// The view of a result whose error is a text.
pub open spec fn unit_result_view(r: Result<(), String>) -> Result<(), Seq<char>> {
    match r {
        Ok(_) => Ok(()),
        Err(e) => Err(e@),
    }
}

/// What removing the jobs does, when asked (`r`): the queue emptied and the
/// messages of the running jobs `running` taken away; nothing otherwise.
pub open spec fn removal_post(s: AppState, running: Seq<i64>, r: bool, s2: AppState) -> bool {
    &&& r == s.remove_jobs
    &&& !r ==> s2 == s
    &&& r ==> {
        &&& s2 == (AppState {
            remove_jobs: false,
            requested_jobs: s2.requested_jobs,
            prioritized_log_messages: s2.prioritized_log_messages,
            ..s
        })
        &&& s2.requested_jobs@.len() == 0
        &&& s2.prioritized_log_messages@ == s.prioritized_log_messages@.remove_keys(running.to_set())
    }
}

/// Whether a job starts now, `running` jobs running.
pub open spec fn job_starts(s: AppState, running: int) -> bool {
    !s.pause_jobs && running == 0 && s.requested_jobs@.len() > 0
}

/// What picking the next job does: the front of the queue leaves it when a
/// job starts; nothing changes otherwise.
pub open spec fn next_job_post(s: AppState, running: int, r: Option<WaitingScreenshot>, s2: AppState) -> bool {
    &&& job_starts(s, running) ==> {
        &&& r == Some(s.requested_jobs@[0])
        &&& s2 == (AppState { requested_jobs: s2.requested_jobs, ..s })
        &&& s2.requested_jobs@ == s.requested_jobs@.drop_first()
    }
    &&& !job_starts(s, running) ==> r is None && s2 == s
}

impl AppState {
    /// Removes all jobs if that was asked: empties the queue and takes away
    /// the messages of the running jobs, whose keys are `running`. Returns
    /// whether the running jobs must be dropped.
    pub fn take_job_removal(&mut self, running: &Vec<i64>) -> (r: bool)
        ensures
            removal_post(*old(self), running@, r, *final(self)),
    {
        if !self.remove_jobs {
            return false;
        }
        self.remove_jobs = false;
        self.requested_jobs = Vec::new();
        let ghost pre = *self;
        let ghost start = self.prioritized_log_messages@;
        let mut i: usize = 0;
        while i < running.len()
            invariant
                i <= running.len(),
                *self == (AppState { prioritized_log_messages: self.prioritized_log_messages, ..pre }),
                self.prioritized_log_messages@ == start.remove_keys(running@.subrange(0, i as int).to_set()),
            decreases running.len() - i,
        {
            let id = running[i];
            self.prioritized_log_messages.remove(&id);
            proof {
                let pre = running@.subrange(0, i as int);
                assert(running@.subrange(0, i + 1) =~= pre.push(id));
                pre.lemma_push_to_set_commute(id);
                assert(start.remove_keys(pre.to_set()).remove(id) =~= start.remove_keys(pre.to_set().insert(id)));
            }
            i = i + 1;
        }
        assert(running@.subrange(0, running.len() as int) =~= running@);
        true
    }

    /// Follows one message of the running job `job`.
    pub fn handle_job_message(&mut self, job: &mut JobProgress, msg: JobMessage)
        requires
            msg is LineRender ==> {
                &&& old(job).height > 0
                &&& 0 <= old(job).rendered_lines
                &&& (old(job).rendered_lines + 1) * 100 <= i32::MAX
            },
        ensures
            job_message_post(*old(self), *old(job), msg, *final(self), *final(job)),
    {
        match msg {
            JobMessage::LineRender => {
                job.rendered_lines = job.rendered_lines + 1;
                let mut s = String::from_str("Screenshot progression:\nline ");
                let lines = i64_to_text(job.rendered_lines as i64);
                s.append(lines.as_str());
                s.append("/");
                let h = i64_to_text(job.height as i64);
                s.append(h.as_str());
                s.append(" (<command ");
                let pct = i64_to_text((job.rendered_lines * 100 / job.height) as i64);
                s.append(pct.as_str());
                s.append("%>)");
                let ghost text = s@;
                self.prioritized_log_messages.insert(job.id, s);
                proof {
                    assert(self.prioritized_log_messages@[job.id]@ == text);
                }
            },
            JobMessage::JobFinished => {
                job.finished = true;
            },
            JobMessage::SetMessage(m) => {
                self.prioritized_log_messages.insert(job.id, m);
            },
            JobMessage::ScrollLogs => {
                self.log_panel_scroll_state.scroll_to_bottom();
            },
            JobMessage::Warning(w) => {
                self.log_warn(w.as_str());
            },
            JobMessage::LimitGPUChunkSize(size) => {
                self.render_settings.chunk_size_limit = Some(size);
            },
        }
    }

    /// Takes away the message of the finished job `id`.
    pub fn retire_job(&mut self, id: i64)
        ensures
            *final(self) == with_messages_of(*old(self), *final(self)),
            final(self).prioritized_log_messages@ == old(self).prioritized_log_messages@.remove(id),
    {
        self.prioritized_log_messages.remove(&id);
    }

    /// The job to start now, taken from the front of the queue: one is
    /// started when execution is not paused, no job is running (`running`
    /// is how many are) and the queue is not empty.
    pub fn next_job(&mut self, running: usize) -> (r: Option<WaitingScreenshot>)
        ensures
            next_job_post(*old(self), running as int, r, *final(self)),
    {
        if !self.pause_jobs && running == 0 && self.requested_jobs.len() > 0 {
            Some(self.requested_jobs.remove(0))
        } else {
            None
        }
    }

    /// Shows how many jobs wait, and whether execution is paused, while
    /// either is the case; takes the message away otherwise.
    pub fn report_waiting_jobs(&mut self)
        ensures
            *final(self) == with_messages_of(*old(self), *final(self)),
            old(self).requested_jobs@.len() > 0 || old(self).pause_jobs ==> message_set(
                old(self).prioritized_log_messages@,
                final(self).prioritized_log_messages@,
                WAITING_JOBS_MESSAGE_ID,
                waiting_text(old(self).requested_jobs@.len() as int, old(self).pause_jobs),
            ),
            !(old(self).requested_jobs@.len() > 0 || old(self).pause_jobs) ==> final(self).prioritized_log_messages@
                == old(self).prioritized_log_messages@.remove(WAITING_JOBS_MESSAGE_ID),
    {
        if self.requested_jobs.len() > 0 || self.pause_jobs {
            let mut s = String::from_str("<yellow ");
            let n = u64_to_text(self.requested_jobs.len() as u64);
            s.append(n.as_str());
            s.append("> job(s) waiting in queue. ");
            let ghost head = s@;
            if self.pause_jobs {
                s.append("Job execution is paused, you can resume with the <command pause> command.");
            } else {
                assert(s@ =~= head + Seq::<char>::empty());
            }
            let ghost text = s@;
            self.prioritized_log_messages.insert(WAITING_JOBS_MESSAGE_ID, s);
            proof {
                assert(self.prioritized_log_messages@[WAITING_JOBS_MESSAGE_ID]@ == text);
            }
        } else {
            self.prioritized_log_messages.remove(&WAITING_JOBS_MESSAGE_ID);
        }
    }

    /// Logs that a job could not finish, with the reason `err`.
    pub fn report_screenshot_failure(&mut self, err: &str)
        ensures
            logged(*old(self), *old(self), *final(self), error_msg(failure_text(err@))),
    {
        let mut s = String::from_str("Could not finish screenshot, reason: ");
        s.append(err);
        self.log_error(s.as_str());
    }

    /// Logs what became of the two files of a finished screenshot of
    /// `width` by `height` pixels: the state file `state_file`, then the
    /// picture `picture_file`.
    pub fn report_screenshot_saved(
        &mut self,
        state_file: &str,
        state_res: Result<(), String>,
        width: i32,
        height: i32,
        picture_file: &str,
        picture_res: Result<(), String>,
    )
        ensures
            logged_all(*old(self), *old(self), *final(self), saved_messages(
                state_file@, unit_result_view(state_res), width as int, height as int, picture_file@,
                unit_result_view(picture_res),
            )),
    {
        let ghost s0 = *self;
        match state_res {
            Ok(()) => {
                let mut s = String::from_str("State file containing capture parameters saved to <acc ");
                s.append(state_file);
                s.append("> in case of failure.");
                self.log_info(s.as_str());
            },
            Err(e) => self.log_error(e.as_str()),
        }
        let ghost s1 = *self;
        match picture_res {
            Ok(()) => {
                let mut s = String::from_str("Screenshot (");
                let w = i64_to_text(width as i64);
                s.append(w.as_str());
                s.append("x");
                let h = i64_to_text(height as i64);
                s.append(h.as_str());
                s.append(") saved to <acc ");
                let f = esc(picture_file);
                s.append(f.as_str());
                s.append(">");
                self.log_success(s.as_str());
            },
            Err(e) => {
                let mut s = String::from_str("Could not save screenshot: ");
                let f = esc(e.as_str());
                s.append(f.as_str());
                self.log_error(s.as_str());
            },
        }
        proof {
            let msgs = saved_messages(
                state_file@, unit_result_view(state_res), width as int, height as int, picture_file@,
                unit_result_view(picture_res),
            );
            crate::state::lemma_log_after_one(crate::state::log_view(s0), msgs[0]);
            crate::state::lemma_log_after_one(crate::state::log_view(s1), msgs[1]);
            crate::state::lemma_log_after_push(crate::state::log_view(s0), seq![msgs[0]], msgs[1]);
            assert(seq![msgs[0]].push(msgs[1]) =~= msgs);
        }
    }
}

/// The name, without extension, of a finished screenshot taken at the time
/// `timestamp`.
pub fn screenshot_base_name_at(name: &Option<String>, frac_name: &str, timestamp: &str) -> (r: String)
    ensures
        r@ == screenshot_base_spec(
            name_view(*name),
            frac_name@,
            timestamp@,
        ),
{
    match name {
        Some(n) => n.clone(),
        None => {
            let mut s = String::from_str(frac_name);
            s.append(" ");
            s.append(timestamp);
            s
        },
    }
}

/// The name, without extension, of a finished screenshot: the requested
/// name, or the fractal name and the local time now.
pub fn screenshot_base_name(name: &Option<String>, frac_name: &str) -> (r: String)
    ensures
        exists|t: Seq<char>| r@ == screenshot_base_spec(
            name_view(*name),
            frac_name@,
            t,
        ),
{
    let t = local_timestamp("%F %H-%M-%S%.f");
    screenshot_base_name_at(name, frac_name, t.as_str())
}

/// The state file and the picture file of a screenshot named `base`, whose
/// picture format has the extension `extension`.
pub fn screenshot_file_names(base: &str, extension: &str) -> (r: (String, String))
    ensures
        r.0@ == base@ + SAVE_EXTENSION@,
        r.1@ == base@ + "."@ + extension@,
{
    let mut state_file = String::from_str(base);
    state_file.append(SAVE_EXTENSION);
    let mut picture_file = String::from_str(base);
    picture_file.append(".");
    picture_file.append(extension);
    (state_file, picture_file)
}

} // verus!
