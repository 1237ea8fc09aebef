use vstd::prelude::*;
use vstd::string::StringExecFns;

verus! {

/// Every way a host command can fail.
#[derive(Debug, Clone, PartialEq)]
pub enum SanitizeError {
    /// No engine executable in any known location; `packaged_dir` tells
    /// whether the host reported a packaged-resource directory.
    NotFound { packaged_dir: bool },
    /// The engine process could not be created.
    Spawn { cause: String },
    /// The request document could not be written to the engine's input.
    Write { cause: String },
    /// The engine's input could not be flushed after the request.
    Flush { cause: String },
    /// The engine's exit or its output could not be collected.
    Wait { cause: String },
    /// The engine exited with a failure status; `stderr` is its error channel.
    EngineFailure { stderr: String },
    /// The engine succeeded but its output is no response document; `raw` is
    /// the start of that output.
    Decode { cause: String, raw: String },
    /// A file could not be read.
    Io { cause: String },
    /// The file dialog has no host integration.
    NotConfigured,
}

/// Does `needle` occur in `hay` as a contiguous run?
pub open spec fn contains(hay: Seq<char>, needle: Seq<char>) -> bool {
    exists|i: int|
        0 <= i && i + needle.len() <= hay.len() && #[trigger] hay.subrange(i, i + needle.len())
            == needle
}

/// The human-readable text of an error.
pub open spec fn message_of(e: SanitizeError) -> Seq<char> {
    match e {
        SanitizeError::NotFound { packaged_dir } => if packaged_dir {
            "找不到 Go sidecar 二进制文件：资源目录中没有，开发目录中也未构建。请先构建 Go 引擎到 bin/ 目录。"@
        } else {
            "找不到 Go sidecar 二进制文件：应用未打包，Go 引擎也未构建。请先构建 Go 引擎到 bin/ 目录。"@
        },
        SanitizeError::Spawn { cause } => "启动 Go 引擎失败: "@ + cause@
            + ". 请确保已构建 Go 二进制文件。"@,
        SanitizeError::Write { cause } => "写入请求失败: "@ + cause@,
        SanitizeError::Flush { cause } => "刷新stdin失败: "@ + cause@,
        SanitizeError::Wait { cause } => "执行 Go 引擎失败: "@ + cause@,
        SanitizeError::EngineFailure { stderr } => "Go 引擎执行失败: "@ + stderr@,
        SanitizeError::Decode { cause, raw } => "解析响应失败: "@ + cause@
            + ". 输出: "@ + raw@,
        SanitizeError::Io { cause } => "读取文件失败: "@ + cause@,
        SanitizeError::NotConfigured =>
            "文件对话框功能需要配置 tauri-plugin-dialog。请手动输入文件路径或使用粘贴功能。"@,
    }
}

/// `a + b` holds `b` as a contiguous run.
pub proof fn lemma_contains_suffix(a: Seq<char>, b: Seq<char>)
    ensures
        contains(a + b, b),
{
    assert((a + b).subrange(a.len() as int, (a.len() + b.len()) as int) =~= b);
}

impl SanitizeError {
    /// The human-readable text of this error.
    pub fn message(&self) -> (m: String)
        ensures
            m@ == message_of(*self),
    {
        match self {
            SanitizeError::NotFound { packaged_dir } => if *packaged_dir {
                String::from_str(
                    "找不到 Go sidecar 二进制文件：资源目录中没有，开发目录中也未构建。请先构建 Go 引擎到 bin/ 目录。",
                )
            } else {
                String::from_str(
                    "找不到 Go sidecar 二进制文件：应用未打包，Go 引擎也未构建。请先构建 Go 引擎到 bin/ 目录。",
                )
            },
            SanitizeError::Spawn { cause } => {
                let mut m = String::from_str("启动 Go 引擎失败: ");
                m.append(cause.as_str());
                m.append(". 请确保已构建 Go 二进制文件。");
                m
            },
            SanitizeError::Write { cause } => {
                let mut m = String::from_str("写入请求失败: ");
                m.append(cause.as_str());
                m
            },
            SanitizeError::Flush { cause } => {
                let mut m = String::from_str("刷新stdin失败: ");
                m.append(cause.as_str());
                m
            },
            SanitizeError::Wait { cause } => {
                let mut m = String::from_str("执行 Go 引擎失败: ");
                m.append(cause.as_str());
                m
            },
            SanitizeError::EngineFailure { stderr } => {
                let mut m = String::from_str("Go 引擎执行失败: ");
                m.append(stderr.as_str());
                m
            },
            SanitizeError::Decode { cause, raw } => {
                let mut m = String::from_str("解析响应失败: ");
                m.append(cause.as_str());
                m.append(". 输出: ");
                m.append(raw.as_str());
                m
            },
            SanitizeError::Io { cause } => {
                let mut m = String::from_str("读取文件失败: ");
                m.append(cause.as_str());
                m
            },
            SanitizeError::NotConfigured => String::from_str(
                "文件对话框功能需要配置 tauri-plugin-dialog。请手动输入文件路径或使用粘贴功能。",
            ),
        }
    }
}

} // verus!
