//! Layout of stored artifacts: `user_files/{user}/{timestamp}/` holds the
//! per-chunk audio, the merged audio and, once rendered, the video.
use vstd::prelude::*;

verus! {

/// The directory under which every user's artifacts live.
pub const STORAGE_ROOT: &'static str = "user_files";

/// The storage directory of a user.
pub open spec fn user_dir_spec(user_id: Seq<char>) -> Seq<char> {
    STORAGE_ROOT@ + "/"@ + user_id
}

/// The folder of one request of a user.
pub open spec fn request_folder_spec(user_id: Seq<char>, stamp: Seq<char>) -> Seq<char> {
    user_dir_spec(user_id) + "/"@ + stamp
}

/// The merged audio in a request folder.
pub open spec fn final_audio_spec(folder: Seq<char>) -> Seq<char> {
    folder + "/final.mp3"@
}

/// The rendered video in a request folder.
pub open spec fn final_video_spec(folder: Seq<char>) -> Seq<char> {
    folder + "/final.mp4"@
}

/// The storage directory of `user_id`.
pub fn user_dir(user_id: &str) -> (r: String)
    ensures
        r@ == user_dir_spec(user_id@),
{
    String::from_str(STORAGE_ROOT).concat("/").concat(user_id)
}

/// The folder of the request of `user_id` made at `stamp`.
pub fn request_folder(user_id: &str, stamp: &str) -> (r: String)
    ensures
        r@ == request_folder_spec(user_id@, stamp@),
{
    user_dir(user_id).concat("/").concat(stamp)
}

/// The merged audio file of the request folder `folder`.
pub fn final_audio_path(folder: &str) -> (r: String)
    ensures
        r@ == final_audio_spec(folder@),
{
    String::from_str(folder).concat("/final.mp3")
}

/// The video file of the request folder `folder`.
pub fn final_video_path(folder: &str) -> (r: String)
    ensures
        r@ == final_video_spec(folder@),
{
    String::from_str(folder).concat("/final.mp4")
}

} // verus!
