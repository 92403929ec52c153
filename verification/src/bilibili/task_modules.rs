//! Download tasks: one per part of a video.

use crate::bilibili::modules::{Video, VideoPart};
use vstd::prelude::*;

verus! {

/// What a task downloads.
#[derive(Clone, Copy, Debug, PartialEq, Eq, Structural)]
pub enum TaskType {
    Video,
    Audio,
}

/// A download task: one part of a video.
pub struct Task {
    pub task_type: TaskType,
    pub video: Video,
    pub part_data: Option<VideoPart>,
}

impl Clone for Task {
    fn clone(&self) -> (r: Self)
        ensures
            r.task_type == self.task_type,
            r.video@ == self.video@,
            r.video.stream == self.video.stream,
            r.video.flac_stream == self.video.flac_stream,
            r.part_data == self.part_data,
    {
        let part_data = match &self.part_data {
            Some(p) => Some(p.clone()),
            None => None,
        };
        Task { task_type: self.task_type, video: self.video.clone(), part_data }
    }
}

impl Task {
    /// One video task for every part of `video`, in the order of the parts;
    /// each task carries the whole video and its part.
    pub fn from_video(video: Video) -> (r: Vec<Task>)
        ensures
            r@.len() == video.parts@.len(),
            forall|i: int|
                0 <= i < r@.len() ==> {
                    &&& (#[trigger] r@[i]).task_type == TaskType::Video
                    &&& r@[i].video@ == video@
                    &&& r@[i].video.stream == video.stream
                    &&& r@[i].video.flac_stream == video.flac_stream
                    &&& r@[i].part_data == Some(video.parts@[i])
                },
    {
        let mut task_list: Vec<Task> = Vec::new();
        let parts = video.parts.clone();
        assert(parts@ =~= video.parts@);
        let n = parts.len();
        let mut i: usize = 0;
        while i < n
            invariant
                n == parts@.len(),
                parts@ == video.parts@,
                0 <= i <= n,
                task_list@.len() == i,
                forall|k: int|
                    0 <= k < i ==> {
                        &&& (#[trigger] task_list@[k]).task_type == TaskType::Video
                        &&& task_list@[k].video@ == video@
                        &&& task_list@[k].video.stream == video.stream
                        &&& task_list@[k].video.flac_stream == video.flac_stream
                        &&& task_list@[k].part_data == Some(video.parts@[k])
                    },
            decreases n - i,
        {
            task_list.push(
                Task { task_type: TaskType::Video, video: video.clone(), part_data: Some(parts[i].clone()) },
            );
            i = i + 1;
        }
        task_list
    }
}

/// Song metadata for a task.
pub struct Meta {
    pub song_name: String,
    pub cover_url: String,
    pub author: String,
    pub lyrics_path: String,
}

impl Meta {
    /// Song metadata cannot be had from a video yet: always `None`.
    pub fn from_video(video: Video) -> (r: Option<Self>)
        ensures
            r is None,
    {
        None
    }
}

} // verus!
