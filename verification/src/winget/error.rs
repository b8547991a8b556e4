//! Errors of the winget layer.
use vstd::prelude::*;
use vstd::string::*;

use crate::text::{decimal_text, int_decimal};

verus! {

/// What can go wrong when talking to winget.
#[derive(Debug, Clone, PartialEq, Eq)]
pub enum WingetError {
    /// The input failed validation (empty, control characters, too long).
    Validation(String),
    /// winget found no matching package.
    NotFound,
    /// The command ran past its time limit.
    Timeout,
    /// An I/O failure (the process could not be started, and the like).
    Io(String),
    /// The output could not be read as a package list.
    Parse(String),
    /// winget exited with a non-zero code.
    CommandFailed { code: i32, stderr: String },
}

impl WingetError {
    /// The text shown to the user for this error.
    pub open spec fn spec_message(&self) -> Seq<char> {
        match self {
            WingetError::Validation(m) => "输入校验失败: "@ + m@,
            WingetError::NotFound => "未找到匹配的包"@,
            WingetError::Timeout => "命令执行超时"@,
            WingetError::Io(m) => "IO 错误: "@ + m@,
            WingetError::Parse(m) => "JSON 解析失败: "@ + m@,
            WingetError::CommandFailed { code, stderr } => "命令执行失败 (code="@ + int_decimal(
                *code as int,
            ) + "): "@ + stderr@,
        }
    }

    /// The text shown to the user for this error.
    pub fn message(&self) -> (r: String)
        ensures
            r@ == self.spec_message(),
    {
        match self {
            WingetError::Validation(m) => {
                let mut r = String::from_str("输入校验失败: ");
                r.append(m.as_str());
                r
            },
            WingetError::NotFound => String::from_str("未找到匹配的包"),
            WingetError::Timeout => String::from_str("命令执行超时"),
            WingetError::Io(m) => {
                let mut r = String::from_str("IO 错误: ");
                r.append(m.as_str());
                r
            },
            WingetError::Parse(m) => {
                let mut r = String::from_str("JSON 解析失败: ");
                r.append(m.as_str());
                r
            },
            WingetError::CommandFailed { code, stderr } => {
                let mut r = String::from_str("命令执行失败 (code=");
                let digits = decimal_text(*code);
                r.append(digits.as_str());
                r.append("): ");
                r.append(stderr.as_str());
                r
            },
        }
    }
}

} // verus!
