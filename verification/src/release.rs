pub mod reproducibility;
